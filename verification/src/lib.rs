//! A verified adapter between an IEEE 802.15.4 radio driver and an
//! asynchronous MAC sublayer.
//!
//! The library holds the decision logic of the adapter: the frame codec for
//! the length-prefixed over-the-air envelope, the translation of a generic
//! radio configuration into the driver's native record, the single-slot
//! notification cell that bridges interrupt callbacks to a cooperative task,
//! and the adapter state machine that composes them. The asynchronous glue
//! (driver calls, interrupt callback registration, awaiting) lives outside
//! the library and hands it plain values.

pub mod adapter;
pub mod caps;
pub mod codec;
pub mod driver;
pub mod signal;
pub mod types;
