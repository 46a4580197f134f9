//! The frame codec for the length-prefixed over-the-air envelope.
//!
//! A raw frame handed over by the driver has the shape
//! `[length_byte, PSDU bytes ..., optional RSSI byte]`. The low seven bits
//! of the length byte declare the PSDU length; the top bit is reserved. A
//! declared length that exceeds the bytes physically present is clamped to
//! what is available, not rejected. The RSSI byte is present exactly when
//! the frame holds at least one byte beyond the PSDU, and is read as a
//! signed value.

use vstd::prelude::*;

use crate::types::RadioErrorKind;

verus! {

/// The PSDU length declared by the first byte of a raw frame.
pub open spec fn declared_len(raw: Seq<u8>) -> nat
    recommends
        raw.len() >= 1,
{
    (raw[0] & 0x7f) as nat
}

/// The PSDU length actually decoded from a raw frame: the declared length,
/// clamped to the bytes physically present after the length byte.
pub open spec fn psdu_len(raw: Seq<u8>) -> nat
    recommends
        raw.len() >= 1,
{
    if declared_len(raw) <= raw.len() - 1 {
        declared_len(raw)
    } else {
        (raw.len() - 1) as nat
    }
}

/// Whether a raw frame carries a trailing RSSI byte: true exactly when at
/// least one byte follows the PSDU.
pub open spec fn has_rssi(raw: Seq<u8>) -> bool
    recommends
        raw.len() >= 1,
{
    raw.len() > 1 + psdu_len(raw)
}

/// A byte reinterpreted as a signed value in two's complement.
pub open spec fn as_signed(b: u8) -> i8 {
    if b < 0x80 {
        b as i8
    } else {
        (b - 0x100) as i8
    }
}

/// The RSSI carried by a raw frame, read right after the PSDU.
pub open spec fn rssi_value(raw: Seq<u8>) -> i8
    recommends
        raw.len() >= 1,
        has_rssi(raw),
{
    as_signed(raw[1 + psdu_len(raw) as int])
}

/// The PSDU bytes of a raw frame: what follows the length byte, clamped to
/// the decoded length.
pub open spec fn psdu_bytes(raw: Seq<u8>) -> Seq<u8>
    recommends
        raw.len() >= 1,
{
    raw.subrange(1, 1 + psdu_len(raw) as int)
}

/// What `decode` returns and leaves in the destination, as a function of
/// the raw frame and the destination's prior contents: the decoded length
/// and optional RSSI on success, `Other` on an empty frame or a PSDU larger
/// than the destination, and the destination's contents after the call
/// (its prefix replaced by the PSDU on success, untouched on failure).
pub open spec fn decode_spec(raw: Seq<u8>, dest: Seq<u8>) -> (Result<
    (usize, Option<i8>),
    RadioErrorKind,
>, Seq<u8>) {
    if raw.len() == 0 {
        (Err(RadioErrorKind::Other), dest)
    } else if psdu_len(raw) > dest.len() {
        (Err(RadioErrorKind::Other), dest)
    } else {
        (
            Ok(
                (
                    psdu_len(raw) as usize,
                    if has_rssi(raw) {
                        Some(rssi_value(raw))
                    } else {
                        None
                    },
                ),
            ),
            psdu_bytes(raw) + dest.skip(psdu_len(raw) as int),
        )
    }
}

/// Reinterpret a byte as a signed value.
fn to_signed(b: u8) -> (r: i8)
    ensures
        r == as_signed(b),
{
    let wide: i16 = b as i16;
    let signed: i16 = if wide < 0x80 {
        wide
    } else {
        wide - 0x100
    };
    signed as i8
}

/// Decode a raw frame into `psdu_buf`.
///
/// Fails with `Other` on an empty frame, and on a decoded PSDU larger than
/// the destination, leaving the destination untouched. Otherwise writes the
/// PSDU over the destination's prefix and returns its length together with
/// the trailing RSSI byte when one is present. The decoded length is the
/// declared length clamped to the bytes available, never more than the
/// destination holds.
pub fn decode(raw: &[u8], psdu_buf: &mut [u8]) -> (r: Result<(usize, Option<i8>), RadioErrorKind>)
    ensures
        r == decode_spec(raw@, old(psdu_buf)@).0,
        final(psdu_buf)@ == decode_spec(raw@, old(psdu_buf)@).1,
        final(psdu_buf)@.len() == old(psdu_buf)@.len(),
        raw@.len() == 0 ==> r == Err::<(usize, Option<i8>), RadioErrorKind>(RadioErrorKind::Other),
        raw@.len() >= 1 ==> (r matches Ok((len, _)) ==> len == psdu_len(raw@)),
        raw@.len() >= 1 && psdu_len(raw@) > old(psdu_buf)@.len() ==> r == Err::<
            (usize, Option<i8>),
            RadioErrorKind,
        >(RadioErrorKind::Other) && final(psdu_buf)@ == old(psdu_buf)@,
        r matches Ok((_, rssi)) ==> (rssi is Some <==> raw@.len() > 1 + psdu_len(raw@)),
{
    if raw.len() == 0 {
        return Err(RadioErrorKind::Other);
    }
    let declared: usize = (raw[0] & 0x7f) as usize;
    let avail: usize = raw.len() - 1;
    let len: usize = if declared <= avail {
        declared
    } else {
        avail
    };
    if len > psdu_buf.len() {
        return Err(RadioErrorKind::Other);
    }
    let mut i: usize = 0;
    while i < len
        invariant
            i <= len,
            len == psdu_len(raw@),
            len <= psdu_buf@.len(),
            raw@.len() >= 1 + len,
            psdu_buf@.len() == old(psdu_buf)@.len(),
            forall|j: int| 0 <= j < i ==> psdu_buf@[j] == raw@[1 + j],
            forall|j: int| i <= j < psdu_buf@.len() ==> psdu_buf@[j] == old(psdu_buf)@[j],
        decreases len - i,
    {
        psdu_buf[i] = raw[1 + i];
        i = i + 1;
    }
    let rssi: Option<i8> = if raw.len() > 1 + len {
        Some(to_signed(raw[1 + len]))
    } else {
        None
    };
    proof {
        assert(psdu_buf@ =~= psdu_bytes(raw@) + old(psdu_buf)@.skip(psdu_len(raw@) as int));
    }
    Ok((len, rssi))
}

} // verus!
