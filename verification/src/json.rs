//! Trusted bridge to serde_json: parsing a JSON document and rebuilding it
//! as a library value.

use vstd::prelude::*;
use serde_json::Value as JsonDoc;
use crate::value::{Value, ValueModel, FloatBits};

verus! {

#[verifier::external_type_specification]
#[verifier::external_body]
pub struct ExJsonValue(JsonDoc);

/// The library value a decoded JSON document denotes: null, booleans and
/// strings variant for variant, numbers as `Integer` when they fit an `i64`
/// and as `Float` otherwise, arrays and objects element for element.
pub uninterp spec fn json_content(v: JsonDoc) -> ValueModel;

/// What decoding a byte sequence as a JSON document yields: `None` on
/// malformed input, otherwise the content of the document the bytes denote.
pub uninterp spec fn json_decoded(b: Seq<u8>) -> Option<ValueModel>;

/// Relies on serde_json::from_slice: whether bytes parse as JSON, and which
/// document they parse to, depends on the bytes alone.
#[verifier::external_body]
pub(crate) fn parse_json(b: &[u8]) -> (r: Option<JsonDoc>)
    ensures
        (r is Some) == (json_decoded(b@) is Some),
        r matches Some(v) ==> json_decoded(b@) == Some(json_content(v)),
{
    serde_json::from_slice::<JsonDoc>(b).ok()
}

/// Relies on serde_json::Value's variants: rebuilds the document as a library
/// value, variant for variant — strings and object keys as their UTF-8 bytes,
/// numbers that fit an `i64` as integers, other numbers as floats (JSON text
/// cannot denote a NaN).
#[verifier::external_body]
pub(crate) fn json_to_value(v: JsonDoc) -> (r: Value)
    ensures
        r.model() == json_content(v),
{
    match v {
        JsonDoc::Null => Value::Null,
        JsonDoc::Bool(b) => Value::Boolean(b),
        JsonDoc::Number(n) => match n.as_i64() {
            Some(i) => Value::Integer(i),
            None => Value::Float(FloatBits::of_bits(n.as_f64().map_or(0, |x| x.to_bits()))),
        },
        JsonDoc::String(s) => Value::Bytes(s.into_bytes()),
        JsonDoc::Array(a) => Value::Array(a.into_iter().map(json_to_value).collect()),
        JsonDoc::Object(o) => Value::Object(
            o.into_iter().map(|(k, w)| (k.into_bytes(), json_to_value(w))).collect(),
        ),
    }
}

} // verus!
