//! The single-slot notification cell at the heart of the event bridge.
//!
//! The bridge between the interrupt context and the cooperative task is a
//! pair of single-slot notification primitives: one carrying the
//! transmit outcome as a boolean, one carrying no payload, purely a wake
//! trigger. This module verifies the slot's state machine: signalling
//! stores the most recent notification even when nobody is waiting yet,
//! taking consumes it, and resetting clears any stale notification before
//! a new operation is armed. The asynchronous glue outside the library
//! runs the same state machine through an interrupt-safe cell and parks
//! the task while `try_take` would find nothing.

use vstd::prelude::*;

verus! {

/// A single-slot notification cell: it holds at most one pending
/// notification, and a later signal overwrites an earlier one.
pub struct SignalCell<T> {
    slot: Option<T>,
}

impl<T> SignalCell<T> {
    /// The pending notification, if any.
    pub closed spec fn pending(self) -> Option<T> {
        self.slot
    }

    /// The cell after a notification `v` is signalled: the slot holds `v`,
    /// whatever it held before.
    pub closed spec fn signaled(self, v: T) -> SignalCell<T> {
        SignalCell { slot: Some(v) }
    }

    /// The cell after its slot is cleared, by a reset or by a take.
    pub closed spec fn cleared(self) -> SignalCell<T> {
        SignalCell { slot: None }
    }

    /// A fresh cell with no pending notification.
    pub fn new() -> (r: SignalCell<T>)
        ensures
            r.pending() == None::<T>,
    {
        SignalCell { slot: None }
    }

    /// Store a notification, overwriting any pending one. Never blocks, so
    /// it is safe to run from the interrupt context.
    pub fn signal(&mut self, v: T)
        ensures
            *final(self) == old(self).signaled(v),
            final(self).pending() == Some(v),
    {
        self.slot = Some(v);
    }

    /// Clear any pending notification, so a new operation does not consume
    /// a stale one left over from a prior operation.
    pub fn reset(&mut self)
        ensures
            *final(self) == old(self).cleared(),
            final(self).pending() == None::<T>,
    {
        self.slot = None;
    }

    /// Consume the pending notification: return it and leave the slot
    /// empty. A waiter keeps its task suspended while this would return
    /// `None`, and wakes on the first notification observed.
    pub fn try_take(&mut self) -> (r: Option<T>)
        ensures
            r == old(self).pending(),
            *final(self) == old(self).cleared(),
    {
        self.slot.take()
    }
}

/// A notification signalled before any waiter arrives wakes the first
/// subsequent wait exactly once: whatever the cell held before, after the
/// signal a take finds the notification, and a second take with no
/// intervening signal finds nothing — the corresponding wait suspends.
pub proof fn lemma_wake_exactly_once<T>(cell: SignalCell<T>, v: T)
    ensures
        cell.signaled(v).pending() == Some(v),
        cell.signaled(v).cleared().pending() == None::<T>,
{
}

} // verus!
