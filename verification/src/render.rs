//! Textual rendering of values for runtime failure reports.

use vstd::prelude::*;
use vstd::string::StringExecFns;
use crate::value::{Value, ValueModel};
use crate::text::{lossy_chars, lossy_to_string};

verus! {

/// The character for the decimal digit `d`.
pub open spec fn digit_char(d: nat) -> char {
    if d == 0 { '0' } else if d == 1 { '1' } else if d == 2 { '2' } else if d == 3 { '3' }
    else if d == 4 { '4' } else if d == 5 { '5' } else if d == 6 { '6' } else if d == 7 { '7' }
    else if d == 8 { '8' } else { '9' }
}

/// The decimal digits of `n`, most significant first.
pub open spec fn dec_digits(n: nat) -> Seq<char>
    decreases n,
{
    if n < 10 {
        seq![digit_char(n)]
    } else {
        dec_digits(n / 10) + seq![digit_char(n % 10)]
    }
}

/// The decimal rendering of `i`, with a leading '-' when negative.
pub open spec fn dec_str_of(i: int) -> Seq<char> {
    if i < 0 {
        seq!['-'] + dec_digits((-i) as nat)
    } else {
        dec_digits(i as nat)
    }
}

/// The character for the hexadecimal digit `d` (lowercase).
pub open spec fn hex_char(d: nat) -> char {
    if d < 10 { digit_char(d) } else if d == 10 { 'a' } else if d == 11 { 'b' }
    else if d == 12 { 'c' } else if d == 13 { 'd' } else if d == 14 { 'e' } else { 'f' }
}

/// The last `k` hexadecimal digits of `b`, most significant first.
pub open spec fn hex_digits(b: nat, k: nat) -> Seq<char>
    decreases k,
{
    if k == 0 {
        Seq::empty()
    } else {
        hex_digits(b / 16, (k - 1) as nat) + seq![hex_char(b % 16)]
    }
}

/// How a float is rendered in failure reports: its sixteen bit-pattern hex
/// digits after "0x".
pub open spec fn float_render_of(b: u64) -> Seq<char> {
    seq!['0', 'x'] + hex_digits(b as nat, 16)
}

/// Relies on i64's Display implementation: the decimal digits of the value,
/// with a leading '-' when negative.
#[verifier::external_body]
pub(crate) fn i64_to_string(i: i64) -> (r: String)
    ensures
        r@ == dec_str_of(i as int),
{
    i.to_string()
}

/// Relies on u64's LowerHex implementation under "{:016x}": sixteen
/// zero-padded lowercase hexadecimal digits.
#[verifier::external_body]
pub(crate) fn float_bits_string(b: u64) -> (r: String)
    ensures
        r@ == float_render_of(b),
{
    format!("0x{:016x}", b)
}

/// The textual rendering of a value carried by a runtime failure: scalars in
/// full, composite values by their kind alone.
pub open spec fn render_of(v: ValueModel) -> Seq<char> {
    match v {
        ValueModel::Null => "null"@,
        ValueModel::Boolean(b) => if b {
            "true"@
        } else {
            "false"@
        },
        ValueModel::Integer(i) => dec_str_of(i as int),
        ValueModel::Float(b) => float_render_of(b),
        ValueModel::Bytes(b) => lossy_chars(b),
        ValueModel::Array(_) => "array"@,
        ValueModel::Object(_) => "map"@,
    }
}

/// Renders a value as text for a failure report.
pub fn render(v: &Value) -> (r: String)
    ensures
        r@ == render_of(v.model()),
{
    match v {
        Value::Null => String::from_str("null"),
        Value::Boolean(b) => if *b {
            String::from_str("true")
        } else {
            String::from_str("false")
        },
        Value::Integer(i) => i64_to_string(*i),
        Value::Float(f) => float_bits_string(f.bits()),
        Value::Bytes(b) => lossy_to_string(b.as_slice()),
        Value::Array(_) => String::from_str("array"),
        Value::Object(_) => String::from_str("map"),
    }
}

} // verus!
