//! Trusted bridge to std's Unicode text operations, and the byte-level
//! normal forms the filters work on.

use vstd::prelude::*;
use vstd::string::StringExecFns;

verus! {

/// The characters obtained by decoding `b` as UTF-8, every invalid sequence
/// replaced by U+FFFD.
pub uninterp spec fn lossy_chars(b: Seq<u8>) -> Seq<char>;

/// The Unicode lowercase mapping of `s`.
pub uninterp spec fn lower_of(s: Seq<char>) -> Seq<char>;

/// The Unicode uppercase mapping of `s`.
pub uninterp spec fn upper_of(s: Seq<char>) -> Seq<char>;

/// The UTF-8 encoding of `s`.
pub uninterp spec fn utf8_of(s: Seq<char>) -> Seq<u8>;

/// The UTF-8 bytes of the lossy decoding of `b`: the normal form on which
/// the text filters compare and split.
pub open spec fn norm_of(b: Seq<u8>) -> Seq<u8> {
    utf8_of(lossy_chars(b))
}

/// Relies on String::from_utf8_lossy: decodes UTF-8 text, replacing each
/// invalid sequence with the replacement character; the result depends on
/// the bytes alone.
#[verifier::external_body]
pub(crate) fn lossy_to_string(b: &[u8]) -> (r: String)
    ensures
        r@ == lossy_chars(b@),
{
    String::from_utf8_lossy(b).into_owned()
}

/// Relies on str::to_lowercase: the Unicode lowercase mapping, a function of
/// the characters alone.
#[verifier::external_body]
pub(crate) fn to_lower(s: &str) -> (r: String)
    ensures
        r@ == lower_of(s@),
{
    s.to_lowercase()
}

/// Relies on str::to_uppercase: the Unicode uppercase mapping, a function of
/// the characters alone.
#[verifier::external_body]
pub(crate) fn to_upper(s: &str) -> (r: String)
    ensures
        r@ == upper_of(s@),
{
    s.to_uppercase()
}

/// Relies on String::into_bytes: a string's contents are exactly its UTF-8
/// bytes.
#[verifier::external_body]
pub(crate) fn string_bytes(s: String) -> (r: Vec<u8>)
    ensures
        r@ == utf8_of(s@),
{
    s.into_bytes()
}

/// Relies on str's equality: two string slices are equal exactly when their
/// character sequences are.
#[verifier::external_body]
pub(crate) fn str_eq(a: &str, b: &str) -> (r: bool)
    ensures
        r <==> a@ == b@,
{
    a == b
}

/// The normal form of `b`: its lossy decoding, re-encoded as UTF-8.
pub fn normalize(b: &[u8]) -> (r: Vec<u8>)
    ensures
        r@ == norm_of(b@),
{
    string_bytes(lossy_to_string(b))
}

/// The normal form of `b`, case-folded to lowercase.
pub fn lowercase_bytes(b: &[u8]) -> (r: Vec<u8>)
    ensures
        r@ == utf8_of(lower_of(lossy_chars(b@))),
{
    let s = lossy_to_string(b);
    let l = to_lower(s.as_str());
    string_bytes(l)
}

/// The normal form of `b`, case-folded to uppercase.
pub fn uppercase_bytes(b: &[u8]) -> (r: Vec<u8>)
    ensures
        r@ == utf8_of(upper_of(lossy_chars(b@))),
{
    let s = lossy_to_string(b);
    let u = to_upper(s.as_str());
    string_bytes(u)
}

} // verus!
