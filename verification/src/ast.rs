//! Filter-invocation syntax trees (consumed, not produced) and the error
//! taxonomy surfaced to callers.

use vstd::prelude::*;
use crate::value::{Value, ValueModel};

verus! {

broadcast use vstd::std_specs::vec::group_vec_axioms, vstd::seq::axiom_seq_index_decreases;

/// One parsed filter invocation: a name and an optional argument list.
#[derive(Debug)]
pub struct Function {
    pub name: String,
    pub args: Option<Vec<FunctionArgument>>,
}

/// An argument of an invocation: a literal value or a nested invocation.
#[derive(Debug)]
pub enum FunctionArgument {
    Arg(Value),
    Function(Function),
}

/// The mathematical model of a `Function`.
pub struct FunctionModel {
    pub name: Seq<char>,
    pub args: Option<Seq<ArgumentModel>>,
}

/// The mathematical model of a `FunctionArgument`.
pub enum ArgumentModel {
    Arg(ValueModel),
    Function(FunctionModel),
}

impl Function {
    /// The invocation this syntax tree represents.
    pub open spec fn model(self) -> FunctionModel
        decreases self,
    {
        FunctionModel {
            name: self.name@,
            args: match self.args {
                None => None,
                Some(v) => Some(
                    Seq::new(
                        v@.len(),
                        |i: int|
                            if 0 <= i < v@.len() {
                                v@[i].model()
                            } else {
                                ArgumentModel::Arg(ValueModel::Null)
                            },
                    ),
                ),
            },
        }
    }
}

impl FunctionArgument {
    /// The argument this syntax tree represents.
    pub open spec fn model(self) -> ArgumentModel
        decreases self,
    {
        match self {
            FunctionArgument::Arg(v) => ArgumentModel::Arg(v.model()),
            FunctionArgument::Function(f) => ArgumentModel::Function(f.model()),
        }
    }
}

/// A compile-time error; the pattern that holds the invocation never becomes
/// usable.
#[derive(Debug)]
pub enum GrokStaticError {
    /// The invocation names no known filter.
    UnknownFilter(String),
    /// The arguments fail the named filter's arity or type rules.
    InvalidFunctionArguments(String),
}

/// The mathematical model of a `GrokStaticError`.
pub enum StaticErrorModel {
    UnknownFilter(Seq<char>),
    InvalidFunctionArguments(Seq<char>),
}

impl GrokStaticError {
    /// The error this value represents.
    pub open spec fn model(self) -> StaticErrorModel {
        match self {
            GrokStaticError::UnknownFilter(n) => StaticErrorModel::UnknownFilter(n@),
            GrokStaticError::InvalidFunctionArguments(n) => StaticErrorModel::InvalidFunctionArguments(
                n@,
            ),
        }
    }
}

/// A runtime failure, carrying the filter's display name and a textual
/// rendering of the offending value.
#[derive(Debug)]
pub enum GrokRuntimeError {
    FailedToApplyFilter(String, String),
}

/// The mathematical model of a `GrokRuntimeError`.
pub enum RuntimeErrorModel {
    FailedToApplyFilter(Seq<char>, Seq<char>),
}

impl GrokRuntimeError {
    /// The failure this value represents.
    pub open spec fn model(self) -> RuntimeErrorModel {
        match self {
            GrokRuntimeError::FailedToApplyFilter(f, v) => RuntimeErrorModel::FailedToApplyFilter(
                f@,
                v@,
            ),
        }
    }
}

} // verus!
