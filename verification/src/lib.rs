//! Environment-parameterized column expressions.
//!
//! An expression is written once over logical field names and evaluated later
//! against an environment, which decides the concrete columns that the names
//! stand for. The same expression can so be run on differently prefixed views
//! of one table.
//!
//! - [`resolver`]: schema, prefix and environment.
//! - [`scalar`]: the literal values that can be lifted into an expression.
//! - [`reader`]: readers, their model and their evaluation.
//! - [`combinators`]: fields and the functions that build readers.
//! - [`operators`]: arithmetic, bitwise and unary operators on readers.
//! - [`lifting`]: how a reader holds a function of the caller.
//! - [`pipeline`]: table operations that wait for an environment.
//! - [`sample`]: a small table to try expressions on.
//! - [`laws`]: what holds of resolvers, readers and pipelines in general.
//! - [`engine`]: the calls into the query engine, taken on trust.

pub mod combinators;
pub mod engine;
pub mod laws;
pub mod lifting;
pub mod operators;
pub mod pipeline;
pub mod reader;
pub mod resolver;
pub mod sample;
pub mod scalar;

pub use combinators::{
    ask, asks, field_function2, field_function3, get_data, map2, pure, series_function3,
    use_prefix, EnvironmentReader, Field,
};
pub use pipeline::{DataFrameOps, PipelineError};
pub use reader::{IntoReader, Reader};
pub use resolver::{Environment, FieldResolver, IntoName};
pub use sample::sample_dataframe_with_modified;
pub use scalar::{IntoScalar, Scalar};

use lifting::hold_expr_fn1;
use polars::prelude::Expr;
use reader::ReaderModel;
use vstd::prelude::*;

verus! {

/// The reader that applies `func` to what `reader` yields.
pub fn map<F>(func: F, reader: Reader) -> (mapped: Reader) where
    F: Fn(Expr) -> Expr + Send + Sync + 'static,

    requires
        forall|x: Expr| call_requires(func, (x,)),
    ensures
        mapped@ matches ReaderModel::Lift1 { relation, arg } && *arg == reader@ && forall|
            x: Expr,
            out: Expr,
        |
            #![trigger relation(x, out)]
            #![trigger call_ensures(func, (x,), out)]
            relation(x, out) <==> call_ensures(func, (x,), out),
{
    Reader::lift1(hold_expr_fn1(func), reader)
}

} // verus!
