//! Literal values that can be lifted into an expression.

use crate::engine::{
    bool_literal_expr, engine_lit_bool, engine_lit_int32, engine_lit_int64, engine_lit_text,
    int32_literal_expr, int64_literal_expr, text_literal_expr,
};
use polars::prelude::Expr;
use vstd::prelude::*;

verus! {

/// A literal value.
#[derive(Debug)]
pub enum Scalar {
    Int32(i32),
    Int64(i64),
    Bool(bool),
    Text(String),
}

/// Mathematical model of a [`Scalar`].
pub enum ScalarModel {
    Int32(i32),
    Int64(i64),
    Bool(bool),
    Text(Seq<char>),
}

impl View for Scalar {
    type V = ScalarModel;

    open spec fn view(&self) -> ScalarModel {
        match self {
            Scalar::Int32(value) => ScalarModel::Int32(*value),
            Scalar::Int64(value) => ScalarModel::Int64(*value),
            Scalar::Bool(value) => ScalarModel::Bool(*value),
            Scalar::Text(value) => ScalarModel::Text(value@),
        }
    }
}

/// The engine's literal expression for a value.
pub open spec fn literal_expr(value: ScalarModel) -> Expr {
    match value {
        ScalarModel::Int32(value) => int32_literal_expr(value),
        ScalarModel::Int64(value) => int64_literal_expr(value),
        ScalarModel::Bool(value) => bool_literal_expr(value),
        ScalarModel::Text(value) => text_literal_expr(value),
    }
}

impl Scalar {
    /// Lifts the value to the engine's literal expression.
    pub fn lift(&self) -> (expr: Expr)
        ensures
            expr == literal_expr(self@),
    {
        match self {
            Scalar::Int32(value) => engine_lit_int32(*value),
            Scalar::Int64(value) => engine_lit_int64(*value),
            Scalar::Bool(value) => engine_lit_bool(*value),
            Scalar::Text(value) => engine_lit_text(value.as_str()),
        }
    }
}

/// The types whose values are literals.
pub trait IntoScalar: Sized {
    /// The literal that the value stands for.
    spec fn scalar(&self) -> ScalarModel;

    fn into_scalar(self) -> (value: Scalar)
        ensures
            value@ == self.scalar(),
    ;
}

impl IntoScalar for Scalar {
    open spec fn scalar(&self) -> ScalarModel {
        self@
    }

    fn into_scalar(self) -> (value: Scalar) {
        self
    }
}

impl IntoScalar for i32 {
    open spec fn scalar(&self) -> ScalarModel {
        ScalarModel::Int32(*self)
    }

    fn into_scalar(self) -> (value: Scalar) {
        Scalar::Int32(self)
    }
}

impl IntoScalar for i64 {
    open spec fn scalar(&self) -> ScalarModel {
        ScalarModel::Int64(*self)
    }

    fn into_scalar(self) -> (value: Scalar) {
        Scalar::Int64(self)
    }
}

impl IntoScalar for bool {
    open spec fn scalar(&self) -> ScalarModel {
        ScalarModel::Bool(*self)
    }

    fn into_scalar(self) -> (value: Scalar) {
        Scalar::Bool(self)
    }
}

impl IntoScalar for String {
    open spec fn scalar(&self) -> ScalarModel {
        ScalarModel::Text(self@)
    }

    fn into_scalar(self) -> (value: Scalar) {
        Scalar::Text(self)
    }
}

impl<'a> IntoScalar for &'a str {
    open spec fn scalar(&self) -> ScalarModel {
        ScalarModel::Text(self@)
    }

    fn into_scalar(self) -> (value: Scalar) {
        Scalar::Text(String::from_str(self))
    }
}

} // verus!
