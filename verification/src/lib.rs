//! Filter subsystem of a log-parsing pipeline: compiles a filter invocation
//! (name plus arguments) into an immutable filter descriptor, and applies a
//! descriptor to a runtime value, producing a transformed value or a failure.

pub mod value;
pub mod float;
pub mod text;
pub mod ast;
pub mod render;
pub mod num;
pub mod tokenize;
pub mod json;
pub mod filter;
pub mod apply;

pub use ast::{Function, FunctionArgument, GrokRuntimeError, GrokStaticError};
pub use apply::apply_filter;
pub use filter::GrokFilter;
pub use value::{FloatBits, Value};
