//! Capability bit-sets the adapter advertises to the MAC layer.
//!
//! Capabilities are enumerated flags held in a small bit-set with union
//! and membership operations, not raw integers. The sets the adapter
//! advertises are fixed at construction time; a capability that depends on
//! an external condition the adapter cannot verify (such as keeping the
//! receiver on while idle, which hinges on coexistence arbitration being
//! off) is withheld.

use vstd::prelude::*;

verus! {

/// Adapter-level features a radio can declare.
#[derive(Clone, Copy, Debug, PartialEq, Eq, Structural)]
pub enum Capability {
    AckTimeout,
    EnergyScan,
    SleepToTx,
    CsmaBackoff,
    RxOnWhenIdle,
}

/// MAC-level features a radio can declare.
#[derive(Clone, Copy, Debug, PartialEq, Eq, Structural)]
pub enum MacCapability {
    TxSecurity,
    TxTiming,
    RxTiming,
}

/// The bit a capability occupies in the set.
pub closed spec fn cap_mask(c: Capability) -> u8 {
    match c {
        Capability::AckTimeout => 1,
        Capability::EnergyScan => 2,
        Capability::SleepToTx => 4,
        Capability::CsmaBackoff => 8,
        Capability::RxOnWhenIdle => 16,
    }
}

/// The bit a MAC capability occupies in the set.
pub closed spec fn mac_cap_mask(c: MacCapability) -> u8 {
    match c {
        MacCapability::TxSecurity => 1,
        MacCapability::TxTiming => 2,
        MacCapability::RxTiming => 4,
    }
}

/// Distinct capabilities occupy distinct bits: two masks overlap exactly
/// when the capabilities are the same.
proof fn lemma_cap_mask_iff(c: Capability, d: Capability)
    ensures
        (cap_mask(c) & cap_mask(d) != 0) <==> c == d,
{
    let x = cap_mask(c);
    let y = cap_mask(d);
    assert(x == 1 || x == 2 || x == 4 || x == 8 || x == 16);
    assert(y == 1 || y == 2 || y == 4 || y == 8 || y == 16);
    assert((x & y != 0) <==> x == y) by (bit_vector)
        requires
            (x == 1 || x == 2 || x == 4 || x == 8 || x == 16) && (y == 1 || y == 2 || y == 4
                || y == 8 || y == 16),
    ;
    assert((x == y) <==> c == d);
}

/// Distinct MAC capabilities occupy distinct bits.
proof fn lemma_mac_cap_mask_iff(c: MacCapability, d: MacCapability)
    ensures
        (mac_cap_mask(c) & mac_cap_mask(d) != 0) <==> c == d,
{
    let x = mac_cap_mask(c);
    let y = mac_cap_mask(d);
    assert(x == 1 || x == 2 || x == 4);
    assert(y == 1 || y == 2 || y == 4);
    assert((x & y != 0) <==> x == y) by (bit_vector)
        requires
            (x == 1 || x == 2 || x == 4) && (y == 1 || y == 2 || y == 4),
    ;
    assert((x == y) <==> c == d);
}

/// The bit a capability occupies, as a runtime value.
fn cap_mask_exec(c: Capability) -> (r: u8)
    ensures
        r == cap_mask(c),
{
    match c {
        Capability::AckTimeout => 1,
        Capability::EnergyScan => 2,
        Capability::SleepToTx => 4,
        Capability::CsmaBackoff => 8,
        Capability::RxOnWhenIdle => 16,
    }
}

/// The bit a MAC capability occupies, as a runtime value.
fn mac_cap_mask_exec(c: MacCapability) -> (r: u8)
    ensures
        r == mac_cap_mask(c),
{
    match c {
        MacCapability::TxSecurity => 1,
        MacCapability::TxTiming => 2,
        MacCapability::RxTiming => 4,
    }
}

/// A set of adapter-level capabilities.
#[derive(Clone, Copy, Debug, PartialEq, Eq, Structural)]
pub struct Capabilities {
    bits: u8,
}

impl Capabilities {
    /// Whether the set holds a capability.
    pub closed spec fn has(self, c: Capability) -> bool {
        self.bits & cap_mask(c) != 0
    }

    /// The set with no capability.
    pub fn empty() -> (r: Capabilities)
        ensures
            forall|c: Capability| !r.has(c),
    {
        let r = Capabilities { bits: 0 };
        proof {
            assert forall|c: Capability| !r.has(c) by {
                let m = cap_mask(c);
                assert(0u8 & m == 0) by (bit_vector);
            }
        }
        r
    }

    /// The set holding exactly one capability.
    pub fn just(c: Capability) -> (r: Capabilities)
        ensures
            forall|d: Capability| r.has(d) <==> d == c,
    {
        let r = Capabilities { bits: cap_mask_exec(c) };
        proof {
            assert forall|d: Capability| r.has(d) <==> d == c by {
                lemma_cap_mask_iff(c, d);
            }
        }
        r
    }

    /// The union of two sets.
    pub fn union(self, other: Capabilities) -> (r: Capabilities)
        ensures
            forall|c: Capability| r.has(c) <==> self.has(c) || other.has(c),
    {
        let r = Capabilities { bits: self.bits | other.bits };
        proof {
            assert forall|c: Capability| r.has(c) <==> self.has(c) || other.has(c) by {
                let a = self.bits;
                let b = other.bits;
                let m = cap_mask(c);
                assert(((a | b) & m != 0) <==> (a & m != 0 || b & m != 0)) by (bit_vector);
            }
        }
        r
    }

    /// Whether the set holds a capability, as a runtime test.
    pub fn contains(self, c: Capability) -> (r: bool)
        ensures
            r == self.has(c),
    {
        self.bits & cap_mask_exec(c) != 0
    }
}

/// A set of MAC-level capabilities.
#[derive(Clone, Copy, Debug, PartialEq, Eq, Structural)]
pub struct MacCapabilities {
    bits: u8,
}

impl MacCapabilities {
    /// Whether the set holds a MAC capability.
    pub closed spec fn has(self, c: MacCapability) -> bool {
        self.bits & mac_cap_mask(c) != 0
    }

    /// The set with no MAC capability.
    pub fn empty() -> (r: MacCapabilities)
        ensures
            forall|c: MacCapability| !r.has(c),
    {
        let r = MacCapabilities { bits: 0 };
        proof {
            assert forall|c: MacCapability| !r.has(c) by {
                let m = mac_cap_mask(c);
                assert(0u8 & m == 0) by (bit_vector);
            }
        }
        r
    }

    /// The set holding every MAC capability.
    pub fn all() -> (r: MacCapabilities)
        ensures
            forall|c: MacCapability| r.has(c),
    {
        let r = MacCapabilities { bits: 7 };
        proof {
            assert forall|c: MacCapability| r.has(c) by {
                let m = mac_cap_mask(c);
                assert(m == 1 || m == 2 || m == 4);
                assert(7u8 & m != 0) by (bit_vector)
                    requires
                        m == 1 || m == 2 || m == 4,
                ;
            }
        }
        r
    }

    /// The union of two sets.
    pub fn union(self, other: MacCapabilities) -> (r: MacCapabilities)
        ensures
            forall|c: MacCapability| r.has(c) <==> self.has(c) || other.has(c),
    {
        let r = MacCapabilities { bits: self.bits | other.bits };
        proof {
            assert forall|c: MacCapability| r.has(c) <==> self.has(c) || other.has(c) by {
                let a = self.bits;
                let b = other.bits;
                let m = mac_cap_mask(c);
                assert(((a | b) & m != 0) <==> (a & m != 0 || b & m != 0)) by (bit_vector);
            }
        }
        r
    }

    /// Whether the set holds a MAC capability, as a runtime test.
    pub fn contains(self, c: MacCapability) -> (r: bool)
        ensures
            r == self.has(c),
    {
        self.bits & mac_cap_mask_exec(c) != 0
    }
}

} // verus!
