//! Trusted bridge to IEEE binary64 arithmetic. Verified code holds floats
//! only as bit patterns (`u64`); these wrappers perform the few float
//! operations the filters need and name their results.

use vstd::prelude::*;
use byteorder::ByteOrder;
use crate::value::{is_nan_bits, is_finite_bits};

verus! {

/// The bits of the IEEE binary64 product of the numbers encoded by `a` and `b`.
pub uninterp spec fn f64_mul_bits(a: u64, b: u64) -> u64;

/// The bits of the binary64 number nearest to the signed integer `i`
/// (round to nearest, ties to even); always finite, never a NaN.
pub uninterp spec fn f64_bits_of_i64(i: i64) -> u64;

/// The result of parsing text as a binary64 number, as bits; `None` when the
/// text is not a valid float literal.
pub uninterp spec fn f64_parsed(s: Seq<char>) -> Option<u64>;

/// The signed integer obtained by truncating the number encoded by `b`
/// toward zero, saturating at the `i64` bounds; zero for a NaN.
pub uninterp spec fn i64_trunc_of_bits(b: u64) -> i64;

/// Relies on byteorder::LittleEndian::read_f64 to decode the operand bits and
/// on IEEE binary64 multiplication: the product is a function of the operand
/// bits alone, and a finite operand times a finite operand is never a NaN.
#[verifier::external_body]
pub(crate) fn mul_bits(a: u64, b: u64) -> (r: u64)
    ensures
        r == f64_mul_bits(a, b),
        is_finite_bits(a) && is_finite_bits(b) ==> !is_nan_bits(r),
{
    let x = byteorder::LittleEndian::read_f64(&a.to_le_bytes());
    let y = byteorder::LittleEndian::read_f64(&b.to_le_bytes());
    (x * y).to_bits()
}

/// Relies on Rust's integer-to-float cast (here with an inferred target type,
/// anchored by byteorder::LittleEndian::write_f64): the result is the nearest
/// binary64 number, always finite.
#[verifier::external_body]
pub(crate) fn i64_to_bits(i: i64) -> (r: u64)
    ensures
        r == f64_bits_of_i64(i),
        !is_nan_bits(r),
        is_finite_bits(r),
{
    let mut buf = [0u8; 8];
    byteorder::LittleEndian::write_f64(&mut buf, i as _);
    u64::from_le_bytes(buf)
}

/// Relies on str::parse into binary64 (the target type anchored by
/// byteorder::LittleEndian::write_f64): acceptance and value are a function
/// of the text alone.
#[verifier::external_body]
pub(crate) fn parse_f64_str(s: &str) -> (r: Option<u64>)
    ensures
        r == f64_parsed(s@),
{
    match s.parse() {
        Ok(x) => {
            let mut buf = [0u8; 8];
            byteorder::LittleEndian::write_f64(&mut buf, x);
            Some(u64::from_le_bytes(buf))
        }
        Err(_) => None,
    }
}

/// Relies on byteorder::LittleEndian::read_f64 and Rust's saturating
/// float-to-integer cast: truncation toward zero, saturating at the `i64`
/// bounds, zero for a NaN.
#[verifier::external_body]
pub(crate) fn bits_trunc_i64(b: u64) -> (r: i64)
    ensures
        r == i64_trunc_of_bits(b),
{
    let x = byteorder::LittleEndian::read_f64(&b.to_le_bytes());
    x as i64
}

/// Whether `b` encodes a NaN, decided on the bits.
pub fn is_nan_bits_x(b: u64) -> (r: bool)
    ensures
        r == is_nan_bits(b),
{
    b >> 52 & 0x7ff == 0x7ff && b & 0xf_ffff_ffff_ffff != 0
}

} // verus!
