//! The radio adapter's decision logic.
//!
//! The adapter composes the frame codec, the configuration translator and
//! the event bridge against a driver handle. Everything the driver and the
//! scheduler do — submitting a transmission, polling for a buffered frame,
//! awaiting a notification — happens in the glue outside the library,
//! which hands the outcomes to the functions here as plain values and
//! applies the records and results they return. Each function here states
//! exactly what the adapter decides for every outcome the driver can
//! report.

use vstd::prelude::*;

use crate::caps::{Capabilities, Capability, MacCapabilities, MacCapability};
use crate::codec;
use crate::driver::{translate, translate_spec, DriverConfig};
use crate::types::{Config, PsduMeta, RadioErrorKind, RawFrame};

verus! {

/// The adapter's own state: the configuration last pushed to the driver.
pub struct Adapter {
    config: Config,
}

impl Adapter {
    /// The configuration the adapter stores.
    pub closed spec fn config_spec(self) -> Config {
        self.config
    }

    /// Create an adapter. It starts from the initial configuration, and
    /// the returned record — its translation — must be applied to the
    /// driver before the adapter is used.
    pub fn new() -> (r: (Adapter, DriverConfig))
        ensures
            r.0.config_spec() == Config::initial(),
            r.1 == translate_spec(Config::initial()),
    {
        let config = Config::new();
        let record = translate(&config);
        (Adapter { config }, record)
    }

    /// Replace the stored configuration.
    ///
    /// When the new configuration equals the stored one field for field,
    /// nothing changes and no record is returned, so the driver is not
    /// re-programmed. When any field differs, the new configuration is
    /// stored and its translation is returned exactly once; the caller
    /// applies it to the driver. This never fails.
    pub fn set_config(&mut self, new: &Config) -> (r: Option<DriverConfig>)
        ensures
            old(self).config_spec() == *new ==> r == None::<DriverConfig>
                && final(self).config_spec() == old(self).config_spec(),
            old(self).config_spec() != *new ==> final(self).config_spec() == *new
                && r == Some(translate_spec(*new)),
    {
        if self.config != *new {
            self.config = new.clone();
            Some(translate(&self.config))
        } else {
            None
        }
    }

    /// The adapter-level capabilities advertised to the MAC layer:
    /// hardware acknowledgment timeout and CSMA backoff, and nothing
    /// else. Keeping the receiver on while idle depends on coexistence
    /// arbitration being off, which the adapter cannot verify, so that
    /// capability is withheld.
    pub fn caps() -> (r: Capabilities)
        ensures
            forall|c: Capability|
                r.has(c) <==> (c == Capability::AckTimeout || c == Capability::CsmaBackoff),
    {
        Capabilities::just(Capability::AckTimeout).union(
            Capabilities::just(Capability::CsmaBackoff),
        )
    }

    /// The MAC-level capabilities advertised to the MAC layer: all of
    /// them.
    pub fn mac_caps() -> (r: MacCapabilities)
        ensures
            forall|c: MacCapability| r.has(c),
    {
        MacCapabilities::all()
    }
}

/// What `transmit` returns once the driver has reported the outcome of a
/// submitted transmission.
///
/// A reported failure is `TxFailed` — the caller's backoff machine treats
/// it as retryable — and the acknowledgment buffer is left untouched. On
/// success with no acknowledgment requested, none captured, or one whose
/// PSDU does not fit the buffer, the result is `Ok(None)`: an absent or
/// oversized acknowledgment is not an error. Otherwise the acknowledgment
/// frame is decoded into the buffer and its metadata returned.
pub fn transmit_outcome(
    success: bool,
    ack: Option<&RawFrame>,
    want_ack: bool,
    ack_buf: &mut [u8],
) -> (r: Result<Option<PsduMeta>, RadioErrorKind>)
    ensures
        final(ack_buf)@.len() == old(ack_buf)@.len(),
        !success ==> r == Err::<Option<PsduMeta>, RadioErrorKind>(RadioErrorKind::TxFailed)
            && final(ack_buf)@ == old(ack_buf)@,
        success && !want_ack ==> r == Ok::<Option<PsduMeta>, RadioErrorKind>(None)
            && final(ack_buf)@ == old(ack_buf)@,
        success && want_ack && ack is None ==> r == Ok::<Option<PsduMeta>, RadioErrorKind>(None)
            && final(ack_buf)@ == old(ack_buf)@,
        success && want_ack ==> (ack matches Some(f) ==> ({
            let (dr, dest) = codec::decode_spec(f.data@, old(ack_buf)@);
            match dr {
                Ok((len, rssi)) => r == Ok::<Option<PsduMeta>, RadioErrorKind>(
                    Some(PsduMeta { len, channel: f.channel, rssi }),
                ) && final(ack_buf)@ == dest,
                Err(_) => r == Ok::<Option<PsduMeta>, RadioErrorKind>(None) && final(ack_buf)@
                    == old(ack_buf)@,
            }
        })),
{
    if !success {
        return Err(RadioErrorKind::TxFailed);
    }
    if want_ack {
        match ack {
            Some(frame) => {
                match codec::decode(frame.data.as_slice(), ack_buf) {
                    Ok((len, rssi)) => {
                        return Ok(Some(PsduMeta { len, channel: frame.channel, rssi }));
                    },
                    Err(_) => {
                        // An acknowledgment that is malformed or does not
                        // fit the buffer is dropped, not reported.
                    },
                }
            },
            None => {},
        }
    }
    Ok(None)
}

/// What `receive` returns once the driver has a buffered frame.
///
/// The frame is decoded into the caller's buffer: an empty frame, or a
/// PSDU larger than the buffer, fails with `Other` and leaves the buffer
/// untouched; otherwise the PSDU is written over the buffer's prefix and
/// the metadata carries its length, the channel the driver saw the frame
/// on, and the trailing RSSI byte when one is present.
pub fn receive_frame(frame: &RawFrame, psdu_buf: &mut [u8]) -> (r: Result<
    PsduMeta,
    RadioErrorKind,
>)
    ensures
        final(psdu_buf)@.len() == old(psdu_buf)@.len(),
        ({
            let (dr, dest) = codec::decode_spec(frame.data@, old(psdu_buf)@);
            match dr {
                Ok((len, rssi)) => r == Ok::<PsduMeta, RadioErrorKind>(
                    PsduMeta { len, channel: frame.channel, rssi },
                ) && final(psdu_buf)@ == dest,
                Err(e) => r == Err::<PsduMeta, RadioErrorKind>(e)
                    && final(psdu_buf)@ == old(psdu_buf)@,
            }
        }),
{
    match codec::decode(frame.data.as_slice(), psdu_buf) {
        Ok((len, rssi)) => Ok(PsduMeta { len, channel: frame.channel, rssi }),
        Err(e) => Err(e),
    }
}

} // verus!
