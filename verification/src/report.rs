//! The speed report: two bytes that hold a signed 16-bit integer, low byte
//! first.

use crate::speed::MotorSpeed;
use vstd::prelude::*;
use zerocopy::FromBytes;

verus! {

/// The length of a speed report in bytes.
pub const REPORT_LEN: usize = 2;

/// The signed 16-bit integer whose little-endian bytes are `lo` and `hi`, in
/// two's complement.
pub open spec fn le_i16(lo: u8, hi: u8) -> int {
    if hi < 128 {
        lo + 256 * hi
    } else {
        lo + 256 * hi - 65536
    }
}

/// What a buffer decodes to: a speed if it holds exactly one report, nothing
/// otherwise.
pub open spec fn decoded(bytes: Seq<u8>) -> Option<MotorSpeed> {
    if bytes.len() == REPORT_LEN {
        Some(MotorSpeed { speed_normalized: le_i16(bytes[0], bytes[1]) as i16 })
    } else {
        None
    }
}

/// The report for a speed: its two's-complement bytes, low byte first.
pub open spec fn encoded(speed: int) -> Seq<u8> {
    let unsigned = if speed >= 0 {
        speed
    } else {
        speed + 65536
    };
    seq![(unsigned % 256) as u8, (unsigned / 256) as u8]
}

/// Reads a little-endian `i16` with `zerocopy`: `FromBytes::read_from_bytes`
/// on `zerocopy::little_endian::I16`, then `I16::get` for the native value.
///
/// Trusted, not proved: `read_from_bytes` fails exactly when the buffer's
/// length differs from the size of the type, which is two bytes, and
/// otherwise copies the bytes; `get` on the little-endian type reads them as
/// `i16::from_le_bytes` does.
#[verifier::external_body]
fn read_le_i16(bytes: &[u8]) -> (r: Option<i16>)
    ensures
        r is Some <==> bytes@.len() == REPORT_LEN,
        r matches Some(v) ==> v == le_i16(bytes@[0], bytes@[1]),
{
    match zerocopy::little_endian::I16::read_from_bytes(bytes) {
        Ok(raw) => Some(raw.get()),
        Err(_) => None,
    }
}

/// Decodes one report.
///
/// A buffer of any other length than two holds no report. That is the
/// ordinary outcome of a partial transfer, not a fault: the result is `None`
/// and the caller keeps its state.
pub fn decode_report(bytes: &[u8]) -> (r: Option<MotorSpeed>)
    ensures
        r == decoded(bytes@),
        r is Some <==> bytes@.len() == REPORT_LEN,
        r matches Some(speed) ==> speed@ == le_i16(bytes@[0], bytes@[1]),
{
    match read_le_i16(bytes) {
        Some(value) => Some(MotorSpeed { speed_normalized: value }),
        None => None,
    }
}

/// Encodes a speed as the host puts it in a report.
pub fn encode_report(speed: MotorSpeed) -> (bytes: [u8; 2])
    ensures
        bytes@ == encoded(speed@),
{
    let wide: i32 = speed.speed_normalized as i32;
    let unsigned: u32 = if wide >= 0 {
        wide as u32
    } else {
        (wide + 65536) as u32
    };
    let lo: u8 = (unsigned % 256) as u8;
    let hi: u8 = (unsigned / 256) as u8;
    let bytes: [u8; 2] = [lo, hi];
    assert(bytes@ =~= encoded(speed@));
    bytes
}

/// Decoding the report of a speed gives that speed back, for every speed.
pub proof fn lemma_decode_encode(speed: MotorSpeed)
    ensures
        encoded(speed@).len() == REPORT_LEN,
        decoded(encoded(speed@)) == Some(speed),
{
}

/// No two reports decode to the same speed: encoding what a report decodes
/// to gives the report back.
pub proof fn lemma_encode_decode(bytes: Seq<u8>)
    requires
        bytes.len() == REPORT_LEN,
    ensures
        decoded(bytes) matches Some(speed) && encoded(speed@) == bytes,
{
    let speed = decoded(bytes)->0;
    assert(encoded(speed@) =~= bytes);
}

/// A buffer whose length is not that of a report decodes to nothing.
pub proof fn lemma_wrong_length_rejected(bytes: Seq<u8>)
    requires
        bytes.len() != REPORT_LEN,
    ensures
        decoded(bytes) is None,
{
}

} // verus!
