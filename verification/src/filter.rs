//! The compiled filter descriptors and the compiler that validates one
//! filter invocation into one.

use vstd::prelude::*;
use vstd::string::StringExecFns;
use crate::value::{Value, ValueModel, FloatBits};
use crate::ast::{
    Function, FunctionArgument, FunctionModel, ArgumentModel, GrokStaticError, StaticErrorModel,
};
use crate::float::{f64_bits_of_i64, i64_to_bits};
use crate::text::{norm_of, normalize, str_eq};

verus! {

broadcast use vstd::std_specs::vec::group_vec_axioms, vstd::seq::axiom_seq_index_decreases;

/// A compiled, validated, immutable filter descriptor. Sentinels and
/// delimiters are held in normal form (lossy-decoded, re-encoded UTF-8).
#[derive(Debug)]
pub enum GrokFilter {
    Integer,
    IntegerExt,
    /// Float parsing with scientific-notation support, e.g. 1e10.
    Number,
    /// Behaviour-identical to `Number`, kept as a distinct name.
    NumberExt,
    NullIf(Vec<u8>),
    Scale(FloatBits),
    Lowercase,
    Uppercase,
    Json,
    Array(Option<(char, char)>, Option<Vec<u8>>, Box<Option<GrokFilter>>),
}

/// The mathematical model of a `GrokFilter`.
#[verifier::ext_equal]
pub enum FilterModel {
    Integer,
    IntegerExt,
    Number,
    NumberExt,
    NullIf(Seq<u8>),
    Scale(u64),
    Lowercase,
    Uppercase,
    Json,
    Array(Option<(char, char)>, Option<Seq<u8>>, Option<Box<FilterModel>>),
}

impl GrokFilter {
    /// The descriptor this value represents.
    pub open spec fn model(self) -> FilterModel
        decreases self,
    {
        match self {
            GrokFilter::Integer => FilterModel::Integer,
            GrokFilter::IntegerExt => FilterModel::IntegerExt,
            GrokFilter::Number => FilterModel::Number,
            GrokFilter::NumberExt => FilterModel::NumberExt,
            GrokFilter::NullIf(s) => FilterModel::NullIf(s@),
            GrokFilter::Scale(k) => FilterModel::Scale(k.spec_bits()),
            GrokFilter::Lowercase => FilterModel::Lowercase,
            GrokFilter::Uppercase => FilterModel::Uppercase,
            GrokFilter::Json => FilterModel::Json,
            GrokFilter::Array(b, d, ef) => FilterModel::Array(
                b,
                match d {
                    None => None,
                    Some(x) => Some(x@),
                },
                match *ef {
                    None => None,
                    Some(g) => Some(Box::new(g.model())),
                },
            ),
        }
    }
}

/// The display name a runtime failure carries for each filter.
pub open spec fn display_of(f: FilterModel) -> Seq<char> {
    match f {
        FilterModel::Integer => "Integer"@,
        FilterModel::IntegerExt => "IntegerExt"@,
        FilterModel::Number => "Number"@,
        FilterModel::NumberExt => "NumberExt"@,
        FilterModel::NullIf(_) => "NullIf"@,
        FilterModel::Scale(_) => "Scale"@,
        FilterModel::Lowercase => "Lowercase"@,
        FilterModel::Uppercase => "Uppercase"@,
        FilterModel::Json => "Json"@,
        FilterModel::Array(_, _, _) => "Array"@,
    }
}

impl GrokFilter {
    /// This filter's display name.
    pub fn display_name(&self) -> (r: String)
        ensures
            r@ == display_of(self.model()),
    {
        match self {
            GrokFilter::Integer => String::from_str("Integer"),
            GrokFilter::IntegerExt => String::from_str("IntegerExt"),
            GrokFilter::Number => String::from_str("Number"),
            GrokFilter::NumberExt => String::from_str("NumberExt"),
            GrokFilter::NullIf(_) => String::from_str("NullIf"),
            GrokFilter::Scale(_) => String::from_str("Scale"),
            GrokFilter::Lowercase => String::from_str("Lowercase"),
            GrokFilter::Uppercase => String::from_str("Uppercase"),
            GrokFilter::Json => String::from_str("Json"),
            GrokFilter::Array(_, _, _) => String::from_str("Array"),
        }
    }
}

/// Decodes a bracket literal: one ASCII byte is a symmetric pair, two ASCII
/// bytes are an open and a close bracket, anything else is invalid.
pub open spec fn bracket_pair(nb: Seq<u8>) -> Option<(char, char)> {
    if nb.len() == 1 && nb[0] < 128 {
        Some((nb[0] as char, nb[0] as char))
    } else if nb.len() == 2 && nb[0] < 128 && nb[1] < 128 {
        Some((nb[0] as char, nb[1] as char))
    } else {
        None
    }
}

/// What compiling an invocation yields, per the validation table: a fixed
/// variant for the zero-argument filters (arguments ignored); `scale` takes a
/// leading numeric literal; `nullIf` exactly one byte-string literal; `array`
/// up to three arguments resolved by count and type; any other name is
/// unknown.
pub open spec fn compile_spec(f: FunctionModel) -> Result<FilterModel, StaticErrorModel>
    decreases f,
{
    if f.name == "integer"@ {
        Ok(FilterModel::Integer)
    } else if f.name == "integerExt"@ {
        Ok(FilterModel::IntegerExt)
    } else if f.name == "number"@ {
        Ok(FilterModel::Number)
    } else if f.name == "numberExt"@ {
        Ok(FilterModel::NumberExt)
    } else if f.name == "lowercase"@ {
        Ok(FilterModel::Lowercase)
    } else if f.name == "uppercase"@ {
        Ok(FilterModel::Uppercase)
    } else if f.name == "json"@ {
        Ok(FilterModel::Json)
    } else if f.name == "scale"@ {
        match f.args {
            Some(args) => if args.len() > 0 {
                match args[0] {
                    ArgumentModel::Arg(ValueModel::Integer(i)) => Ok(
                        FilterModel::Scale(f64_bits_of_i64(i)),
                    ),
                    ArgumentModel::Arg(ValueModel::Float(bits)) => Ok(FilterModel::Scale(bits)),
                    _ => Err(StaticErrorModel::InvalidFunctionArguments(f.name)),
                }
            } else {
                Err(StaticErrorModel::InvalidFunctionArguments(f.name))
            },
            None => Err(StaticErrorModel::InvalidFunctionArguments(f.name)),
        }
    } else if f.name == "nullIf"@ {
        match f.args {
            Some(args) => if args.len() == 1 {
                match args[0] {
                    ArgumentModel::Arg(ValueModel::Bytes(b)) => Ok(
                        FilterModel::NullIf(norm_of(b)),
                    ),
                    _ => Err(StaticErrorModel::InvalidFunctionArguments(f.name)),
                }
            } else {
                Err(StaticErrorModel::InvalidFunctionArguments(f.name))
            },
            None => Err(StaticErrorModel::InvalidFunctionArguments(f.name)),
        }
    } else if f.name == "array"@ {
        let args = if f.args is Some {
            f.args->Some_0
        } else {
            Seq::empty()
        };
        if args.len() == 0 {
            Ok(FilterModel::Array(None, None, None))
        } else if args.len() == 1 {
            match args[0] {
                ArgumentModel::Arg(ValueModel::Bytes(d)) => Ok(
                    FilterModel::Array(None, Some(norm_of(d)), None),
                ),
                ArgumentModel::Function(g) => match compile_spec(g) {
                    Ok(m) => Ok(FilterModel::Array(None, None, Some(Box::new(m)))),
                    Err(e) => Err(e),
                },
                _ => Err(StaticErrorModel::InvalidFunctionArguments(f.name)),
            }
        } else if args.len() == 2 {
            match (args[0], args[1]) {
                (
                    ArgumentModel::Arg(ValueModel::Bytes(bb)),
                    ArgumentModel::Arg(ValueModel::Bytes(db)),
                ) => match bracket_pair(norm_of(bb)) {
                    Some(p) => Ok(FilterModel::Array(Some(p), Some(norm_of(db)), None)),
                    None => Err(StaticErrorModel::InvalidFunctionArguments(f.name)),
                },
                (ArgumentModel::Arg(ValueModel::Bytes(db)), ArgumentModel::Function(g)) => match compile_spec(
                    g,
                ) {
                    Ok(m) => Ok(FilterModel::Array(None, Some(norm_of(db)), Some(Box::new(m)))),
                    Err(e) => Err(e),
                },
                _ => Err(StaticErrorModel::InvalidFunctionArguments(f.name)),
            }
        } else if args.len() == 3 {
            match (args[0], args[1], args[2]) {
                (
                    ArgumentModel::Arg(ValueModel::Bytes(bb)),
                    ArgumentModel::Arg(ValueModel::Bytes(db)),
                    ArgumentModel::Function(g),
                ) => match compile_spec(g) {
                    Ok(m) => match bracket_pair(norm_of(bb)) {
                        Some(p) => Ok(
                            FilterModel::Array(Some(p), Some(norm_of(db)), Some(Box::new(m))),
                        ),
                        None => Err(StaticErrorModel::InvalidFunctionArguments(f.name)),
                    },
                    Err(e) => Err(e),
                },
                _ => Err(StaticErrorModel::InvalidFunctionArguments(f.name)),
            }
        } else {
            Err(StaticErrorModel::InvalidFunctionArguments(f.name))
        }
    } else {
        Err(StaticErrorModel::UnknownFilter(f.name))
    }
}

/// The model of a compilation result.
pub open spec fn compile_result_model(r: Result<GrokFilter, GrokStaticError>) -> Result<
    FilterModel,
    StaticErrorModel,
> {
    match r {
        Ok(g) => Ok(g.model()),
        Err(e) => Err(e.model()),
    }
}

/// Decodes a bracket literal held in normal form.
fn decode_brackets(nb: &Vec<u8>) -> (r: Option<(char, char)>)
    ensures
        r == bracket_pair(nb@),
{
    if nb.len() == 1 {
        let b0 = nb[0];
        if b0 < 128 {
            Some((b0 as char, b0 as char))
        } else {
            None
        }
    } else if nb.len() == 2 {
        let b0 = nb[0];
        let b1 = nb[1];
        if b0 < 128 && b1 < 128 {
            Some((b0 as char, b1 as char))
        } else {
            None
        }
    } else {
        None
    }
}

/// The error the compiler reports for ill-formed arguments to `name`.
fn invalid_args(name: &String) -> (r: GrokStaticError)
    ensures
        r.model() == StaticErrorModel::InvalidFunctionArguments(name@),
{
    GrokStaticError::InvalidFunctionArguments(String::from_str(name.as_str()))
}

impl GrokFilter {
    /// Compiles one filter invocation into a validated descriptor, exactly as
    /// `compile_spec` lays down.
    pub fn try_from(f: &Function) -> (r: Result<GrokFilter, GrokStaticError>)
        ensures
            compile_result_model(r) == compile_spec(f.model()),
        decreases *f,
    {
        let name = &f.name;
        if str_eq(name.as_str(), "integer") {
            Ok(GrokFilter::Integer)
        } else if str_eq(name.as_str(), "integerExt") {
            Ok(GrokFilter::IntegerExt)
        } else if str_eq(name.as_str(), "number") {
            Ok(GrokFilter::Number)
        } else if str_eq(name.as_str(), "numberExt") {
            Ok(GrokFilter::NumberExt)
        } else if str_eq(name.as_str(), "lowercase") {
            Ok(GrokFilter::Lowercase)
        } else if str_eq(name.as_str(), "uppercase") {
            Ok(GrokFilter::Uppercase)
        } else if str_eq(name.as_str(), "json") {
            Ok(GrokFilter::Json)
        } else if str_eq(name.as_str(), "scale") {
            match &f.args {
                Some(args) if args.len() > 0 => match &args[0] {
                    FunctionArgument::Arg(Value::Integer(i)) => {
                        let bits = i64_to_bits(*i);
                        Ok(GrokFilter::Scale(FloatBits::of_bits(bits)))
                    }
                    FunctionArgument::Arg(Value::Float(k)) => Ok(GrokFilter::Scale(*k)),
                    _ => Err(invalid_args(name)),
                },
                _ => Err(invalid_args(name)),
            }
        } else if str_eq(name.as_str(), "nullIf") {
            match &f.args {
                Some(args) if args.len() == 1 => match &args[0] {
                    FunctionArgument::Arg(Value::Bytes(b)) => Ok(
                        GrokFilter::NullIf(normalize(b.as_slice())),
                    ),
                    _ => Err(invalid_args(name)),
                },
                _ => Err(invalid_args(name)),
            }
        } else if str_eq(name.as_str(), "array") {
            match &f.args {
                Some(args) if args.len() == 1 => match &args[0] {
                    FunctionArgument::Arg(Value::Bytes(d)) => Ok(
                        GrokFilter::Array(
                            None,
                            Some(normalize(d.as_slice())),
                            Box::new(None),
                        ),
                    ),
                    FunctionArgument::Function(g) => match GrokFilter::try_from(g) {
                        Ok(m) => Ok(GrokFilter::Array(None, None, Box::new(Some(m)))),
                        Err(e) => Err(e),
                    },
                    _ => Err(invalid_args(name)),
                },
                Some(args) if args.len() == 2 => match (&args[0], &args[1]) {
                    (
                        FunctionArgument::Arg(Value::Bytes(bb)),
                        FunctionArgument::Arg(Value::Bytes(db)),
                    ) => match decode_brackets(&normalize(bb.as_slice())) {
                        Some(p) => Ok(
                            GrokFilter::Array(
                                Some(p),
                                Some(normalize(db.as_slice())),
                                Box::new(None),
                            ),
                        ),
                        None => Err(invalid_args(name)),
                    },
                    (
                        FunctionArgument::Arg(Value::Bytes(db)),
                        FunctionArgument::Function(g),
                    ) => match GrokFilter::try_from(g) {
                        Ok(m) => Ok(
                            GrokFilter::Array(
                                None,
                                Some(normalize(db.as_slice())),
                                Box::new(Some(m)),
                            ),
                        ),
                        Err(e) => Err(e),
                    },
                    _ => Err(invalid_args(name)),
                },
                Some(args) if args.len() == 3 => match (&args[0], &args[1], &args[2]) {
                    (
                        FunctionArgument::Arg(Value::Bytes(bb)),
                        FunctionArgument::Arg(Value::Bytes(db)),
                        FunctionArgument::Function(g),
                    ) => match GrokFilter::try_from(g) {
                        Ok(m) => match decode_brackets(&normalize(bb.as_slice())) {
                            Some(p) => Ok(
                                GrokFilter::Array(
                                    Some(p),
                                    Some(normalize(db.as_slice())),
                                    Box::new(Some(m)),
                                ),
                            ),
                            None => Err(invalid_args(name)),
                        },
                        Err(e) => Err(e),
                    },
                    _ => Err(invalid_args(name)),
                },
                Some(args) if args.len() > 3 => Err(invalid_args(name)),
                _ => Ok(GrokFilter::Array(None, None, Box::new(None))),
            }
        } else {
            Err(GrokStaticError::UnknownFilter(String::from_str(name.as_str())))
        }
    }
}

} // verus!
