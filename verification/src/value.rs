//! The semantic value union: raw extracted text and every transformed result.

use vstd::prelude::*;

verus! {

broadcast use vstd::std_specs::vec::group_vec_axioms, vstd::seq::axiom_seq_index_decreases;

/// True when `b` is the bit pattern of an IEEE binary64 NaN: all exponent
/// bits set and a non-zero mantissa.
pub open spec fn is_nan_bits(b: u64) -> bool {
    (b >> 52) & 0x7ff == 0x7ff && b & 0xf_ffff_ffff_ffff != 0
}

/// True when `b` is the bit pattern of a finite IEEE binary64 number:
/// not all exponent bits are set (neither NaN nor an infinity).
pub open spec fn is_finite_bits(b: u64) -> bool {
    (b >> 52) & 0x7ff != 0x7ff
}

/// A 64-bit float held as its IEEE bit pattern, NaN excluded by construction.
#[derive(Debug, Clone, Copy)]
pub struct FloatBits {
    bits: u64,
}

impl FloatBits {
    /// The IEEE bit pattern of the number.
    pub closed spec fn spec_bits(self) -> u64 {
        self.bits
    }

    #[verifier::type_invariant]
    pub closed spec fn inv(self) -> bool {
        !is_nan_bits(self.bits)
    }

    /// Wraps a bit pattern; `None` when the bits encode a NaN.
    pub fn new(bits: u64) -> (r: Option<FloatBits>)
        ensures
            r matches Some(f) ==> f.spec_bits() == bits && !is_nan_bits(bits),
            r is None <==> is_nan_bits(bits),
    {
        if bits >> 52 & 0x7ff == 0x7ff && bits & 0xf_ffff_ffff_ffff != 0 {
            None
        } else {
            Some(FloatBits { bits })
        }
    }

    /// Wraps a bit pattern already known not to encode a NaN.
    pub(crate) fn of_bits(bits: u64) -> (r: FloatBits)
        requires
            !is_nan_bits(bits),
        ensures
            r.spec_bits() == bits,
    {
        FloatBits { bits }
    }

    /// The IEEE bit pattern of the number.
    pub fn bits(&self) -> (r: u64)
        ensures
            r == self.spec_bits(),
            !is_nan_bits(r),
    {
        proof {
            use_type_invariant(self);
        }
        self.bits
    }
}

/// A runtime value: raw text extracted from a log line, or the result of a
/// filter application.
#[derive(Debug)]
pub enum Value {
    Null,
    Boolean(bool),
    Integer(i64),
    Float(FloatBits),
    /// A byte sequence, conceptually UTF-8 text extracted from a log line.
    Bytes(Vec<u8>),
    Array(Vec<Value>),
    /// A string-keyed collection (keys as UTF-8 bytes), produced by JSON
    /// decoding; insertion order carries no meaning.
    Object(Vec<(Vec<u8>, Value)>),
}

/// The mathematical model of a `Value`: byte sequences in place of vectors,
/// bare IEEE bit patterns in place of `FloatBits`.
#[verifier::ext_equal]
pub enum ValueModel {
    Null,
    Boolean(bool),
    Integer(i64),
    Float(u64),
    Bytes(Seq<u8>),
    Array(Seq<ValueModel>),
    Object(Seq<(Seq<u8>, ValueModel)>),
}

impl Value {
    /// The mathematical value this datatype represents.
    pub open spec fn model(self) -> ValueModel
        decreases self,
    {
        match self {
            Value::Null => ValueModel::Null,
            Value::Boolean(b) => ValueModel::Boolean(b),
            Value::Integer(i) => ValueModel::Integer(i),
            Value::Float(f) => ValueModel::Float(f.spec_bits()),
            Value::Bytes(b) => ValueModel::Bytes(b@),
            Value::Array(items) => ValueModel::Array(
                Seq::new(
                    items@.len(),
                    |i: int|
                        if 0 <= i < items@.len() {
                            items@[i].model()
                        } else {
                            ValueModel::Null
                        },
                ),
            ),
            Value::Object(fields) => ValueModel::Object(
                Seq::new(
                    fields@.len(),
                    |i: int|
                        if 0 <= i < fields@.len() {
                            (fields@[i].0@, fields@[i].1.model())
                        } else {
                            (Seq::empty(), ValueModel::Null)
                        },
                ),
            ),
        }
    }
}

/// Compares two byte strings for exact equality.
pub fn bytes_eq(a: &[u8], b: &[u8]) -> (r: bool)
    ensures
        r <==> a@ == b@,
{
    if a.len() != b.len() {
        return false;
    }
    let mut i: usize = 0;
    while i < a.len()
        invariant
            i <= a@.len(),
            a@.len() == b@.len(),
            forall|j: int| 0 <= j < i ==> a@[j] == b@[j],
        decreases a@.len() - i,
    {
        if a[i] != b[i] {
            return false;
        }
        i += 1;
    }
    proof {
        assert(a@ =~= b@);
    }
    true
}

} // verus!
