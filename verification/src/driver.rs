//! Translation of the generic radio configuration into the driver's native
//! configuration record.
//!
//! The translation is a pure mapping. A few policy fields are set
//! unconditionally, whatever the input: automatic acknowledgment on both
//! directions and acknowledgment enhancement are enabled, the coordinator
//! role is disabled, and the receive queue is deepened well beyond the
//! driver's default so bursts of inbound frames are not dropped. The
//! channel-assessment variant becomes a (threshold, mode) pair; everything
//! else passes through unchanged.

use vstd::prelude::*;

use crate::types::{Cca, Config};

verus! {

/// The receive queue depth pushed to the driver. The driver's own default
/// is too small for the bursts of inbound frames the upper protocol
/// produces; too small a queue loses frames.
pub const RX_QUEUE_SIZE: usize = 50;

/// The channel-assessment strategies the driver can run.
#[derive(Clone, Copy, Debug, PartialEq, Eq, Structural)]
pub enum CcaMode {
    Carrier,
    Ed,
    CarrierAndEd,
    CarrierOrEd,
}

/// The driver's native configuration record, as plain values. The glue
/// around the library converts this record one-for-one into the driver's
/// own type before applying it.
#[derive(Clone, Copy, Debug, PartialEq, Eq, Structural)]
pub struct DriverConfig {
    pub auto_ack_tx: bool,
    pub auto_ack_rx: bool,
    pub enhance_ack_tx: bool,
    pub promiscuous: bool,
    pub coordinator: bool,
    pub rx_when_idle: bool,
    pub txpower: i8,
    pub channel: u8,
    pub cca_threshold: i8,
    pub cca_mode: CcaMode,
    pub pan_id: Option<u16>,
    pub short_addr: Option<u16>,
    pub ext_addr: Option<u64>,
    pub rx_queue_size: usize,
}

/// The energy-detect threshold a channel-assessment variant carries:
/// zero for pure carrier sense, the configured value otherwise.
pub open spec fn cca_threshold_spec(cca: Cca) -> i8 {
    match cca {
        Cca::Carrier => 0,
        Cca::Ed { ed_threshold } => ed_threshold,
        Cca::CarrierAndEd { ed_threshold } => ed_threshold,
        Cca::CarrierOrEd { ed_threshold } => ed_threshold,
    }
}

/// The detection strategy a channel-assessment variant selects.
pub open spec fn cca_mode_spec(cca: Cca) -> CcaMode {
    match cca {
        Cca::Carrier => CcaMode::Carrier,
        Cca::Ed { .. } => CcaMode::Ed,
        Cca::CarrierAndEd { .. } => CcaMode::CarrierAndEd,
        Cca::CarrierOrEd { .. } => CcaMode::CarrierOrEd,
    }
}

/// The driver record a generic configuration translates to, field by
/// field: fixed policy fields, the channel-assessment pair, and the
/// pass-through of channel, power, addressing, promiscuity and
/// receive-when-idle.
pub open spec fn translate_spec(c: Config) -> DriverConfig {
    DriverConfig {
        auto_ack_tx: true,
        auto_ack_rx: true,
        enhance_ack_tx: true,
        promiscuous: c.promiscuous,
        coordinator: false,
        rx_when_idle: c.rx_when_idle,
        txpower: c.power,
        channel: c.channel,
        cca_threshold: cca_threshold_spec(c.cca),
        cca_mode: cca_mode_spec(c.cca),
        pan_id: c.pan_id,
        short_addr: c.short_addr,
        ext_addr: c.ext_addr,
        rx_queue_size: RX_QUEUE_SIZE,
    }
}

/// Translate a generic configuration into the driver's native record.
pub fn translate(c: &Config) -> (r: DriverConfig)
    ensures
        r == translate_spec(*c),
{
    let cca_threshold: i8 = match c.cca {
        Cca::Carrier => 0,
        Cca::Ed { ed_threshold } => ed_threshold,
        Cca::CarrierAndEd { ed_threshold } => ed_threshold,
        Cca::CarrierOrEd { ed_threshold } => ed_threshold,
    };
    let cca_mode: CcaMode = match c.cca {
        Cca::Carrier => CcaMode::Carrier,
        Cca::Ed { .. } => CcaMode::Ed,
        Cca::CarrierAndEd { .. } => CcaMode::CarrierAndEd,
        Cca::CarrierOrEd { .. } => CcaMode::CarrierOrEd,
    };
    DriverConfig {
        auto_ack_tx: true,
        auto_ack_rx: true,
        enhance_ack_tx: true,
        promiscuous: c.promiscuous,
        coordinator: false,
        rx_when_idle: c.rx_when_idle,
        txpower: c.power,
        channel: c.channel,
        cca_threshold,
        cca_mode,
        pan_id: c.pan_id,
        short_addr: c.short_addr,
        ext_addr: c.ext_addr,
        rx_queue_size: RX_QUEUE_SIZE,
    }
}

} // verus!
