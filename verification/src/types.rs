//! The adapter's data model: errors, channel-assessment modes, the generic
//! radio configuration, and decoded-frame metadata.

use vstd::prelude::*;

verus! {

/// The two error kinds the adapter surfaces. `Other` marks a malformed or
/// oversized frame or a driver submission rejection; `TxFailed` marks a
/// driver-reported transmission failure, which callers treat as retryable.
#[derive(Clone, Copy, Debug, PartialEq, Eq, Structural)]
pub enum RadioErrorKind {
    Other,
    TxFailed,
}

/// Channel-assessment policy run before a transmission: pure carrier sense,
/// pure energy detection above a threshold, or a conjunction or disjunction
/// of the two.
#[derive(Clone, Copy, Debug, PartialEq, Eq, Structural)]
pub enum Cca {
    Carrier,
    Ed { ed_threshold: i8 },
    CarrierAndEd { ed_threshold: i8 },
    CarrierOrEd { ed_threshold: i8 },
}

/// The generic radio configuration handed down by the MAC layer. An
/// immutable value compared field-for-field to decide whether the driver
/// must be re-programmed.
#[derive(Clone, Copy, Debug, PartialEq, Eq, Structural)]
pub struct Config {
    /// IEEE 802.15.4 channel number.
    pub channel: u8,
    /// Transmit power in dBm.
    pub power: i8,
    /// Channel-assessment mode and threshold.
    pub cca: Cca,
    /// Personal Area Network identifier, when one is assigned.
    pub pan_id: Option<u16>,
    /// Short (16-bit) link-layer address, when one is assigned.
    pub short_addr: Option<u16>,
    /// Extended (64-bit) link-layer address, when one is assigned.
    pub ext_addr: Option<u64>,
    /// Whether address filtering is disabled.
    pub promiscuous: bool,
    /// Whether the receiver stays on while no request is pending.
    pub rx_when_idle: bool,
}

impl Config {
    /// The configuration an adapter starts from, before the MAC layer has
    /// pushed one of its own.
    pub fn new() -> (r: Config)
        ensures
            r == Config::initial(),
    {
        Config {
            channel: 11,
            power: 0,
            cca: Cca::Carrier,
            pan_id: None,
            short_addr: None,
            ext_addr: None,
            promiscuous: false,
            rx_when_idle: false,
        }
    }

    /// The value `Config::new` returns.
    pub open spec fn initial() -> Config {
        Config {
            channel: 11,
            power: 0,
            cca: Cca::Carrier,
            pan_id: None,
            short_addr: None,
            ext_addr: None,
            promiscuous: false,
            rx_when_idle: false,
        }
    }
}

/// A raw frame as the driver hands it over: the envelope bytes
/// `[length_byte, PSDU ..., optional RSSI]` and the channel the frame was
/// seen on. The adapter consults such frames transiently and never
/// retains them.
#[derive(Clone, Debug, PartialEq, Eq)]
pub struct RawFrame {
    pub data: Vec<u8>,
    pub channel: u8,
}

/// Metadata of a decoded frame: the PSDU length written to the caller's
/// buffer, the channel the frame was seen on, and the received signal
/// strength when the raw frame carried one.
#[derive(Clone, Copy, Debug, PartialEq, Eq)]
pub struct PsduMeta {
    pub len: usize,
    pub channel: u8,
    pub rssi: Option<i8>,
}

} // verus!
