//! The application engine: evaluates a compiled filter descriptor against a
//! runtime value, yielding a transformed value or one structured failure.
//! Every application is atomic: one value out, or one failure and no partial
//! result. Integer parsing works on the raw bytes; that coincides with
//! parsing their lossy decoding, since any byte outside the ASCII digits and
//! signs already makes the text invalid.

use vstd::prelude::*;
use crate::value::{Value, ValueModel, FloatBits, is_nan_bits, is_finite_bits, bytes_eq};
use crate::ast::{GrokRuntimeError, RuntimeErrorModel};
use crate::filter::{GrokFilter, FilterModel, display_of};
use crate::render::{render, render_of};
use crate::float::{
    f64_mul_bits, f64_bits_of_i64, f64_parsed, i64_trunc_of_bits, mul_bits, i64_to_bits,
    parse_f64_str, bits_trunc_i64, is_nan_bits_x,
};
use crate::text::{lossy_chars, lower_of, upper_of, utf8_of, norm_of, lossy_to_string,
    lowercase_bytes, uppercase_bytes, normalize};
use crate::num::{i64_parsed, parse_i64};
use crate::tokenize::{tokenize_spec, tokenize, deep_option};
use crate::json::{json_decoded, parse_json, json_to_value};

verus! {

broadcast use vstd::std_specs::vec::group_vec_axioms, vstd::seq::axiom_seq_index_decreases;

/// The failure a filter reports on a value it cannot transform.
pub open spec fn fail_of(f: FilterModel, v: ValueModel) -> RuntimeErrorModel {
    RuntimeErrorModel::FailedToApplyFilter(display_of(f), render_of(v))
}

/// What parsing bytes as a 64-bit float yields: the float parse of their
/// lossy decoding.
pub open spec fn float_of_bytes(b: Seq<u8>) -> Option<u64> {
    f64_parsed(lossy_chars(b))
}

/// The token list as byte-string values.
pub open spec fn bytes_values(ts: Seq<Seq<u8>>) -> Seq<ValueModel> {
    ts.map_values(|t: Seq<u8>| ValueModel::Bytes(t))
}

/// The models of a value list.
pub open spec fn models_of(s: Seq<Value>) -> Seq<ValueModel> {
    s.map_values(|x: Value| x.model())
}

/// Scale's outcome on operand bits `x` and factor bits `k`: the product as a
/// float, or a failure when the product's bits encode a NaN (possible only
/// when an infinity meets a zero).
pub open spec fn scale_result(x: u64, k: u64, f: FilterModel, v: ValueModel) -> Result<
    ValueModel,
    RuntimeErrorModel,
> {
    if is_nan_bits(f64_mul_bits(x, k)) {
        Err(fail_of(f, v))
    } else {
        Ok(ValueModel::Float(f64_mul_bits(x, k)))
    }
}

/// Applying the element filter `ef` to every element in order; the first
/// failure fails the whole list.
pub open spec fn apply_elems(ts: Seq<ValueModel>, ef: FilterModel) -> Result<
    Seq<ValueModel>,
    RuntimeErrorModel,
>
    decreases ef, ts.len() + 1,
{
    if ts.len() == 0 {
        Ok(Seq::empty())
    } else {
        match apply_spec(ts[0], ef) {
            Err(e) => Err(e),
            Ok(w) => match apply_elems(ts.drop_first(), ef) {
                Err(e) => Err(e),
                Ok(ws) => Ok(seq![w] + ws),
            },
        }
    }
}

/// What applying a filter to a value yields. Every filter first checks the
/// kind of the value; a kind mismatch is always a failure. Byte strings are
/// parsed (`Integer` strictly, the float filters with scientific notation),
/// case-folded, decoded as JSON, compared against the sentinel, or tokenized
/// in normal form; `Scale` multiplies integers, floats or parsed byte
/// strings by its factor and always yields a float.
pub open spec fn apply_spec(v: ValueModel, f: FilterModel) -> Result<ValueModel, RuntimeErrorModel>
    decreases f, 0nat,
{
    match f {
        FilterModel::Integer => match v {
            ValueModel::Bytes(b) => match i64_parsed(b) {
                Some(i) => Ok(ValueModel::Integer(i)),
                None => Err(fail_of(f, v)),
            },
            _ => Err(fail_of(f, v)),
        },
        FilterModel::IntegerExt => match v {
            ValueModel::Bytes(b) => match float_of_bytes(b) {
                Some(bits) => Ok(ValueModel::Integer(i64_trunc_of_bits(bits))),
                None => Err(fail_of(f, v)),
            },
            _ => Err(fail_of(f, v)),
        },
        FilterModel::Number | FilterModel::NumberExt => match v {
            ValueModel::Bytes(b) => match float_of_bytes(b) {
                Some(bits) => if is_nan_bits(bits) {
                    Err(fail_of(f, v))
                } else {
                    Ok(ValueModel::Float(bits))
                },
                None => Err(fail_of(f, v)),
            },
            _ => Err(fail_of(f, v)),
        },
        FilterModel::Scale(k) => match v {
            ValueModel::Integer(i) => scale_result(f64_bits_of_i64(i), k, f, v),
            ValueModel::Float(x) => scale_result(x, k, f, v),
            ValueModel::Bytes(b) => match float_of_bytes(b) {
                Some(x) => scale_result(x, k, f, v),
                None => Err(fail_of(f, v)),
            },
            _ => Err(fail_of(f, v)),
        },
        FilterModel::Lowercase => match v {
            ValueModel::Bytes(b) => Ok(ValueModel::Bytes(utf8_of(lower_of(lossy_chars(b))))),
            _ => Err(fail_of(f, v)),
        },
        FilterModel::Uppercase => match v {
            ValueModel::Bytes(b) => Ok(ValueModel::Bytes(utf8_of(upper_of(lossy_chars(b))))),
            _ => Err(fail_of(f, v)),
        },
        FilterModel::Json => match v {
            ValueModel::Bytes(b) => match json_decoded(b) {
                Some(m) => Ok(m),
                None => Err(fail_of(f, v)),
            },
            _ => Err(fail_of(f, v)),
        },
        FilterModel::NullIf(sent) => match v {
            ValueModel::Bytes(b) => if norm_of(b) == sent {
                Ok(ValueModel::Null)
            } else {
                Ok(v)
            },
            _ => Err(fail_of(f, v)),
        },
        FilterModel::Array(br, dl, ef) => match v {
            ValueModel::Bytes(b) => match tokenize_spec(norm_of(b), br, dl) {
                None => Err(fail_of(f, v)),
                Some(tokens) => match ef {
                    None => Ok(ValueModel::Array(bytes_values(tokens))),
                    Some(boxed) => match apply_elems(bytes_values(tokens), *boxed) {
                        Ok(ws) => Ok(ValueModel::Array(ws)),
                        Err(e) => Err(e),
                    },
                },
            },
            _ => Err(fail_of(f, v)),
        },
    }
}

/// The model of an application result.
pub open spec fn apply_result_model(r: Result<Value, GrokRuntimeError>) -> Result<
    ValueModel,
    RuntimeErrorModel,
> {
    match r {
        Ok(v) => Ok(v.model()),
        Err(e) => Err(e.model()),
    }
}

/// Builds the failure a filter reports on a value.
fn runtime_fail(filter: &GrokFilter, value: &Value) -> (e: GrokRuntimeError)
    ensures
        e.model() == fail_of(filter.model(), value.model()),
{
    GrokRuntimeError::FailedToApplyFilter(filter.display_name(), render(value))
}

/// Copies a byte string.
fn clone_bytes(b: &Vec<u8>) -> (r: Vec<u8>)
    ensures
        r@ == b@,
{
    let mut r: Vec<u8> = Vec::new();
    let mut i: usize = 0;
    while i < b.len()
        invariant
            i <= b@.len(),
            r@ == b@.take(i as int),
        decreases b@.len() - i,
    {
        let c = b[i];
        r.push(c);
        proof {
            assert(b@.take(i + 1 as int) =~= b@.take(i as int) + seq![b@[i as int]]);
        }
        i += 1;
    }
    proof {
        assert(b@.take(i as int) =~= b@);
    }
    r
}

/// Parses bytes as a 64-bit float, through their lossy decoding.
fn parse_float_bytes(b: &[u8]) -> (r: Option<u64>)
    ensures
        r == float_of_bytes(b@),
{
    let s = lossy_to_string(b);
    parse_f64_str(s.as_str())
}

/// Applies the element filter to every token, first failure in order.
fn apply_elems_exec(tokens: &[Vec<u8>], ef: &GrokFilter) -> (r: Result<Vec<Value>, GrokRuntimeError>)
    ensures
        (match r {
            Ok(vs) => apply_elems(bytes_values(tokens.deep_view()), ef.model()) == Ok::<
                Seq<ValueModel>,
                RuntimeErrorModel,
            >(models_of(vs@)),
            Err(e) => apply_elems(bytes_values(tokens.deep_view()), ef.model()) == Err::<
                Seq<ValueModel>,
                RuntimeErrorModel,
            >(e.model()),
        }),
    decreases *ef, tokens@.len() + 1,
{
    let ghost ts = bytes_values(tokens.deep_view());
    if tokens.len() == 0 {
        let out: Vec<Value> = Vec::new();
        proof {
            assert(ts =~= Seq::<ValueModel>::empty());
            assert(models_of(out@) =~= Seq::<ValueModel>::empty());
        }
        Ok(out)
    } else {
        let first = Value::Bytes(clone_bytes(&tokens[0]));
        proof {
            assert(tokens@[0].deep_view() =~= tokens@[0]@);
            assert(ts[0] == first.model());
        }
        match apply_filter(&first, ef) {
            Err(e) => Err(e),
            Ok(w) => {
                let rest = vstd::slice::slice_subrange(tokens, 1, tokens.len());
                proof {
                    assert(bytes_values(rest.deep_view()) =~= ts.drop_first());
                }
                match apply_elems_exec(rest, ef) {
                    Err(e) => Err(e),
                    Ok(mut vs) => {
                        let ghost vs0 = vs@;
                        let mut out: Vec<Value> = Vec::new();
                        out.push(w);
                        out.append(&mut vs);
                        proof {
                            assert(models_of(out@) =~= seq![w.model()] + models_of(vs0));
                        }
                        Ok(out)
                    }
                }
            }
        }
    }
}

/// Applies a compiled filter to a runtime value, exactly as `apply_spec`
/// lays down. Scaling a finite float by a finite factor always succeeds:
/// the product of two finite numbers is never a NaN.
pub fn apply_filter(value: &Value, filter: &GrokFilter) -> (r: Result<Value, GrokRuntimeError>)
    ensures
        apply_result_model(r) == apply_spec(value.model(), filter.model()),
        (value matches Value::Float(fb) && filter matches GrokFilter::Scale(k)
            && is_finite_bits(fb.spec_bits()) && is_finite_bits(k.spec_bits())) ==> r is Ok,
    decreases *filter, 0nat,
{
    match filter {
        GrokFilter::Integer => match value {
            Value::Bytes(b) => match parse_i64(b.as_slice()) {
                Some(i) => Ok(Value::Integer(i)),
                None => Err(runtime_fail(filter, value)),
            },
            _ => Err(runtime_fail(filter, value)),
        },
        GrokFilter::IntegerExt => match value {
            Value::Bytes(b) => match parse_float_bytes(b.as_slice()) {
                Some(bits) => Ok(Value::Integer(bits_trunc_i64(bits))),
                None => Err(runtime_fail(filter, value)),
            },
            _ => Err(runtime_fail(filter, value)),
        },
        GrokFilter::Number | GrokFilter::NumberExt => match value {
            Value::Bytes(b) => match parse_float_bytes(b.as_slice()) {
                Some(bits) => if is_nan_bits_x(bits) {
                    Err(runtime_fail(filter, value))
                } else {
                    Ok(Value::Float(FloatBits::of_bits(bits)))
                },
                None => Err(runtime_fail(filter, value)),
            },
            _ => Err(runtime_fail(filter, value)),
        },
        GrokFilter::Scale(k) => {
            let kb = k.bits();
            let xb_opt: Option<u64> = match value {
                Value::Integer(i) => Some(i64_to_bits(*i)),
                Value::Float(x) => Some(x.bits()),
                Value::Bytes(b) => parse_float_bytes(b.as_slice()),
                _ => None,
            };
            match xb_opt {
                Some(xb) => {
                    let p = mul_bits(xb, kb);
                    if is_nan_bits_x(p) {
                        Err(runtime_fail(filter, value))
                    } else {
                        Ok(Value::Float(FloatBits::of_bits(p)))
                    }
                }
                None => Err(runtime_fail(filter, value)),
            }
        }
        GrokFilter::Lowercase => match value {
            Value::Bytes(b) => Ok(Value::Bytes(lowercase_bytes(b.as_slice()))),
            _ => Err(runtime_fail(filter, value)),
        },
        GrokFilter::Uppercase => match value {
            Value::Bytes(b) => Ok(Value::Bytes(uppercase_bytes(b.as_slice()))),
            _ => Err(runtime_fail(filter, value)),
        },
        GrokFilter::Json => match value {
            Value::Bytes(b) => match parse_json(b.as_slice()) {
                Some(doc) => Ok(json_to_value(doc)),
                None => Err(runtime_fail(filter, value)),
            },
            _ => Err(runtime_fail(filter, value)),
        },
        GrokFilter::NullIf(sent) => match value {
            Value::Bytes(b) => {
                let norm = normalize(b.as_slice());
                if bytes_eq(norm.as_slice(), sent.as_slice()) {
                    Ok(Value::Null)
                } else {
                    Ok(Value::Bytes(clone_bytes(b)))
                }
            }
            _ => Err(runtime_fail(filter, value)),
        },
        GrokFilter::Array(br, dl, ef) => match value {
            Value::Bytes(b) => {
                let norm = normalize(b.as_slice());
                let dl_ref: Option<&Vec<u8>> = match dl {
                    Some(x) => Some(x),
                    None => None,
                };
                match tokenize(norm.as_slice(), *br, dl_ref) {
                    None => Err(runtime_fail(filter, value)),
                    Some(tokens) => match &**ef {
                        None => {
                            let mut out: Vec<Value> = Vec::new();
                            let mut i: usize = 0;
                            while i < tokens.len()
                                invariant
                                    i <= tokens@.len(),
                                    out@.len() == i as int,
                                    forall|j: int|
                                        0 <= j < i ==> (#[trigger] out@[j].model())
                                            == ValueModel::Bytes(tokens@[j]@),
                                decreases tokens@.len() - i,
                            {
                                out.push(Value::Bytes(clone_bytes(&tokens[i])));
                                i += 1;
                            }
                            proof {
                                assert(models_of(out@) =~= bytes_values(tokens.deep_view())) by {
                                    assert forall|j: int|
                                        0 <= j < out@.len() implies models_of(out@)[j]
                                        == bytes_values(tokens.deep_view())[j] by {
                                        assert(tokens@[j].deep_view() =~= tokens@[j]@);
                                    }
                                }
                                let m = Value::Array(out).model();
                                assert(m is Array);
                                let s1 = m->Array_0;
                                let s2 = models_of(out@);
                                assert(s1.len() == s2.len());
                                assert forall|j: int| 0 <= j < s1.len() implies s1[j] == s2[j] by {
                                    assert(s1[j] == out@[j].model());
                                    assert(s2[j] == out@[j].model());
                                }
                                assert(s1 =~= s2);
                                assert(m == ValueModel::Array(s2));
                            }
                            Ok(Value::Array(out))
                        }
                        Some(efilter) => match apply_elems_exec(tokens.as_slice(), efilter) {
                            Ok(vs) => {
                                proof {
                                    let m = Value::Array(vs).model();
                                    assert(m is Array);
                                    let s1 = m->Array_0;
                                    let s2 = models_of(vs@);
                                    assert(s1.len() == s2.len());
                                    assert forall|j: int| 0 <= j < s1.len() implies s1[j]
                                        == s2[j] by {
                                        assert(s1[j] == vs@[j].model());
                                        assert(s2[j] == vs@[j].model());
                                    }
                                    assert(s1 =~= s2);
                                    assert(m == ValueModel::Array(s2));
                                }
                                Ok(Value::Array(vs))
                            }
                            Err(e) => Err(e),
                        },
                    },
                }
            }
            _ => Err(runtime_fail(filter, value)),
        },
    }
}

/// Law: when every element transforms, the array application succeeds with
/// exactly the transformed elements, in original order.
pub proof fn lemma_apply_elems_all_ok(ts: Seq<ValueModel>, ef: FilterModel)
    requires
        forall|j: int| 0 <= j < ts.len() ==> (#[trigger] apply_spec(ts[j], ef)) is Ok,
    ensures
        apply_elems(ts, ef) matches Ok(ws) && ws.len() == ts.len() && (forall|j: int|
            0 <= j < ts.len() ==> ws[j] == (#[trigger] apply_spec(ts[j], ef))->Ok_0),
    decreases ts.len(),
{
    if ts.len() > 0 {
        let tail = ts.drop_first();
        assert forall|j: int| 0 <= j < tail.len() implies (#[trigger] apply_spec(
            tail[j],
            ef,
        )) is Ok by {
            assert(tail[j] == ts[j + 1]);
        }
        lemma_apply_elems_all_ok(tail, ef);
        let w0 = apply_spec(ts[0], ef)->Ok_0;
        let ws_tail = apply_elems(tail, ef)->Ok_0;
        let ws = seq![w0] + ws_tail;
        assert(apply_elems(ts, ef) == Ok::<Seq<ValueModel>, RuntimeErrorModel>(ws));
        assert(ws.len() == ts.len());
        assert forall|j: int| 0 <= j < ts.len() implies ws[j] == (#[trigger] apply_spec(
            ts[j],
            ef,
        ))->Ok_0 by {
            if j > 0 {
                assert(tail[j - 1] == ts[j]);
                assert(apply_spec(tail[j - 1], ef) == apply_spec(ts[j], ef));
                assert(ws[j] == ws_tail[j - 1]);
            }
        }
    }
}

/// Law: one element failure fails the whole array application, and the error
/// reported is the first failing element's, in original order.
pub proof fn lemma_apply_elems_fail_fast(ts: Seq<ValueModel>, ef: FilterModel, i: int)
    requires
        0 <= i < ts.len(),
        apply_spec(ts[i], ef) is Err,
        forall|j: int| 0 <= j < i ==> (#[trigger] apply_spec(ts[j], ef)) is Ok,
    ensures
        apply_elems(ts, ef) == Err::<Seq<ValueModel>, RuntimeErrorModel>(
            apply_spec(ts[i], ef)->Err_0,
        ),
    decreases i,
{
    if i > 0 {
        assert(ts.drop_first()[i - 1] == ts[i]);
        assert forall|j: int| 0 <= j < i - 1 implies (#[trigger] apply_spec(
            ts.drop_first()[j],
            ef,
        )) is Ok by {
            assert(ts.drop_first()[j] == ts[j + 1]);
        }
        lemma_apply_elems_fail_fast(ts.drop_first(), ef, i - 1);
        assert(apply_spec(ts[0], ef) is Ok);
    }
}

/// Law: `Number` and `NumberExt` are behaviour-identical: they succeed on
/// the same values and then yield the same result; a failure differs only in
/// the filter name it reports.
pub proof fn lemma_number_ext_identical(v: ValueModel)
    ensures
        apply_spec(v, FilterModel::Number) is Ok <==> apply_spec(v, FilterModel::NumberExt) is Ok,
        apply_spec(v, FilterModel::Number) is Ok ==> apply_spec(v, FilterModel::Number)
            == apply_spec(v, FilterModel::NumberExt),
{
}

/// Law: applying `NullIf` to a non-matching byte string hands the value back
/// unchanged, and applying it again yields the identical value again.
pub proof fn lemma_null_if_idempotent(b: Seq<u8>, sent: Seq<u8>)
    requires
        norm_of(b) != sent,
    ensures
        apply_spec(ValueModel::Bytes(b), FilterModel::NullIf(sent)) == Ok::<
            ValueModel,
            RuntimeErrorModel,
        >(ValueModel::Bytes(b)),
        apply_spec(
            apply_spec(ValueModel::Bytes(b), FilterModel::NullIf(sent))->Ok_0,
            FilterModel::NullIf(sent),
        ) == apply_spec(ValueModel::Bytes(b), FilterModel::NullIf(sent)),
{
}

} // verus!
