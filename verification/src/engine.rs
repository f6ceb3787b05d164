//! The query engine, as far as this library uses it.
//!
//! Nothing in this file is proved. Each function here hands its arguments to
//! one operation of the engine, and its contract is taken on trust from the
//! engine's source. An expression of the engine is opaque to the verifier, so
//! what an expression builder returns is given a name, and the contracts of the
//! library speak of those names. A name says no more than that the builder is
//! a function of its arguments.
//!
//! Two kinds of call are different. Running a query may depend on more than
//! the arguments: the functions that an expression carries run at that time.
//! And an expression that carries a function holds a fresh handle to it each
//! time it is built. For those calls the name is a relation that holds of
//! every actual outcome.

use crate::lifting::SeriesFn3;
use crate::resolver::borrowed_names_of;
use polars::prelude::{Column, DataFrame, Expr, GetOutput, IntoLazy, PolarsError, Series};
use std::sync::Arc;
use vstd::prelude::*;

verus! {

/// A symbolic expression of the engine.
#[verifier::external_type_specification]
#[verifier::external_body]
pub struct ExExpr(Expr);

/// A table of the engine.
#[verifier::external_type_specification]
#[verifier::external_body]
pub struct ExDataFrame(DataFrame);

/// A column of a table.
#[verifier::external_type_specification]
#[verifier::external_body]
pub struct ExColumn(Column);

/// A materialized column of values, as the engine hands it to a value-level function.
#[verifier::external_type_specification]
#[verifier::external_body]
pub struct ExSeries(Series);

/// The engine's error.
#[verifier::external_type_specification]
#[verifier::external_body]
pub struct ExPolarsError(PolarsError);

/// What `col` returns for a column name.
pub uninterp spec fn column_expr(name: Seq<char>) -> Expr;

/// What `lit` returns for an `i32`.
pub uninterp spec fn int32_literal_expr(value: i32) -> Expr;

/// What `lit` returns for an `i64`.
pub uninterp spec fn int64_literal_expr(value: i64) -> Expr;

/// What `lit` returns for a `bool`.
pub uninterp spec fn bool_literal_expr(value: bool) -> Expr;

/// What `lit` returns for a string.
pub uninterp spec fn text_literal_expr(value: Seq<char>) -> Expr;

/// What `Expr::cast` to the 32-bit integer type returns.
pub uninterp spec fn int32_cast_expr(operand: Expr) -> Expr;

/// What `Expr::alias` returns.
pub uninterp spec fn alias_expr(operand: Expr, name: Seq<char>) -> Expr;

/// What `-` returns on an expression.
pub uninterp spec fn negation_expr(operand: Expr) -> Expr;

/// What `Expr::not` returns.
pub uninterp spec fn complement_expr(operand: Expr) -> Expr;

/// What `+` returns on two expressions.
pub uninterp spec fn sum_expr(left: Expr, right: Expr) -> Expr;

/// What `-` returns on two expressions.
pub uninterp spec fn difference_expr(left: Expr, right: Expr) -> Expr;

/// What `*` returns on two expressions.
pub uninterp spec fn product_expr(left: Expr, right: Expr) -> Expr;

/// What `/` returns on two expressions.
pub uninterp spec fn quotient_expr(left: Expr, right: Expr) -> Expr;

/// What `%` returns on two expressions.
pub uninterp spec fn remainder_expr(left: Expr, right: Expr) -> Expr;

/// What `Expr::floor_div` returns.
pub uninterp spec fn floor_quotient_expr(left: Expr, right: Expr) -> Expr;

/// What `Expr::pow` returns.
pub uninterp spec fn power_expr(base: Expr, exponent: Expr) -> Expr;

/// What `Expr::and` returns.
pub uninterp spec fn conjunction_expr(left: Expr, right: Expr) -> Expr;

/// What `Expr::or` returns.
pub uninterp spec fn disjunction_expr(left: Expr, right: Expr) -> Expr;

/// What `Expr::xor` returns.
pub uninterp spec fn exclusive_or_expr(left: Expr, right: Expr) -> Expr;

/// What `Expr::gt` returns.
pub uninterp spec fn greater_expr(left: Expr, right: Expr) -> Expr;

/// What `Expr::gt_eq` returns.
pub uninterp spec fn greater_or_equal_expr(left: Expr, right: Expr) -> Expr;

/// What `Expr::lt` returns.
pub uninterp spec fn less_expr(left: Expr, right: Expr) -> Expr;

/// What `Expr::lt_eq` returns.
pub uninterp spec fn less_or_equal_expr(left: Expr, right: Expr) -> Expr;

/// What `Expr::eq` returns.
pub uninterp spec fn equal_expr(left: Expr, right: Expr) -> Expr;

/// What `Expr::neq` returns.
pub uninterp spec fn not_equal_expr(left: Expr, right: Expr) -> Expr;

/// The names of a table's columns, in the table's order.
pub uninterp spec fn column_names(frame: DataFrame) -> Seq<Seq<char>>;

/// The values of a table's column of 32-bit integers without missing values.
pub uninterp spec fn int32_column(frame: DataFrame, name: Seq<char>) -> Seq<i32>;

/// Whether `Expr::map_many` may build `out` from `first`, with `second` and
/// `third` as its further arguments.
pub uninterp spec fn values_mapped(first: Expr, second: Expr, third: Expr, out: Expr) -> bool;

/// Whether filtering `frame` by `predicate` may end in `outcome`.
pub uninterp spec fn filter_outcome(
    frame: DataFrame,
    predicate: Expr,
    outcome: Result<DataFrame, PolarsError>,
) -> bool;

/// Whether projecting `frame` onto `columns` may end in `outcome`.
pub uninterp spec fn select_outcome(
    frame: DataFrame,
    columns: Seq<Expr>,
    outcome: Result<DataFrame, PolarsError>,
) -> bool;

/// Calls `polars::prelude::col`, which builds the reference to the column
/// `name` from the name alone.
#[verifier::external_body]
pub(crate) fn engine_col(name: &str) -> (expr: Expr)
    ensures
        expr == column_expr(name@),
{
    polars::prelude::col(name)
}

/// Calls `polars::prelude::lit` on an `i32`, which builds an integer literal
/// from the value alone.
#[verifier::external_body]
pub(crate) fn engine_lit_int32(value: i32) -> (expr: Expr)
    ensures
        expr == int32_literal_expr(value),
{
    polars::prelude::lit(value)
}

/// Calls `polars::prelude::lit` on an `i64`, which builds an integer literal
/// from the value alone.
#[verifier::external_body]
pub(crate) fn engine_lit_int64(value: i64) -> (expr: Expr)
    ensures
        expr == int64_literal_expr(value),
{
    polars::prelude::lit(value)
}

/// Calls `polars::prelude::lit` on a `bool`, which builds a boolean literal
/// from the value alone.
#[verifier::external_body]
pub(crate) fn engine_lit_bool(value: bool) -> (expr: Expr)
    ensures
        expr == bool_literal_expr(value),
{
    polars::prelude::lit(value)
}

/// Calls `polars::prelude::lit` on a string slice, which builds a string
/// literal from the characters alone.
#[verifier::external_body]
pub(crate) fn engine_lit_text(value: &str) -> (expr: Expr)
    ensures
        expr == text_literal_expr(value@),
{
    polars::prelude::lit(value)
}

/// Calls `Expr::cast` with `DataType::Int32`, which wraps the operand in a
/// cast node.
#[verifier::external_body]
pub(crate) fn engine_cast_int32(operand: Expr) -> (expr: Expr)
    ensures
        expr == int32_cast_expr(operand),
{
    operand.cast(polars::prelude::DataType::Int32)
}

/// Calls `Expr::alias`, which wraps the operand in a node that renames it.
#[verifier::external_body]
pub(crate) fn engine_alias(operand: Expr, name: &str) -> (expr: Expr)
    ensures
        expr == alias_expr(operand, name@),
{
    operand.alias(name)
}

/// Calls `Neg::neg` of `Expr`, which wraps the operand in a negation.
#[verifier::external_body]
pub(crate) fn engine_neg(operand: Expr) -> (expr: Expr)
    ensures
        expr == negation_expr(operand),
{
    -operand
}

/// Calls `Expr::not`, which wraps the operand in a boolean negation.
#[verifier::external_body]
pub(crate) fn engine_not(operand: Expr) -> (expr: Expr)
    ensures
        expr == complement_expr(operand),
{
    operand.not()
}

/// Calls `Add::add` of `Expr`, which builds the binary node of both operands.
#[verifier::external_body]
pub(crate) fn engine_add(left: Expr, right: Expr) -> (expr: Expr)
    ensures
        expr == sum_expr(left, right),
{
    left + right
}

/// Calls `Sub::sub` of `Expr`, which builds the binary node of both operands.
#[verifier::external_body]
pub(crate) fn engine_sub(left: Expr, right: Expr) -> (expr: Expr)
    ensures
        expr == difference_expr(left, right),
{
    left - right
}

/// Calls `Mul::mul` of `Expr`, which builds the binary node of both operands.
#[verifier::external_body]
pub(crate) fn engine_mul(left: Expr, right: Expr) -> (expr: Expr)
    ensures
        expr == product_expr(left, right),
{
    left * right
}

/// Calls `Div::div` of `Expr`, which builds the binary node of both operands.
#[verifier::external_body]
pub(crate) fn engine_div(left: Expr, right: Expr) -> (expr: Expr)
    ensures
        expr == quotient_expr(left, right),
{
    left / right
}

/// Calls `Rem::rem` of `Expr`, which builds the binary node of both operands.
#[verifier::external_body]
pub(crate) fn engine_rem(left: Expr, right: Expr) -> (expr: Expr)
    ensures
        expr == remainder_expr(left, right),
{
    left % right
}

/// Calls `Expr::floor_div`, which builds the binary node of both operands.
#[verifier::external_body]
pub(crate) fn engine_floor_div(left: Expr, right: Expr) -> (expr: Expr)
    ensures
        expr == floor_quotient_expr(left, right),
{
    left.floor_div(right)
}

/// Calls `Expr::pow`, which builds the power function node of base and exponent.
#[verifier::external_body]
pub(crate) fn engine_pow(base: Expr, exponent: Expr) -> (expr: Expr)
    ensures
        expr == power_expr(base, exponent),
{
    base.pow(exponent)
}

/// Calls `Expr::and`, which builds the binary node of both operands.
#[verifier::external_body]
pub(crate) fn engine_and(left: Expr, right: Expr) -> (expr: Expr)
    ensures
        expr == conjunction_expr(left, right),
{
    left.and(right)
}

/// Calls `Expr::or`, which builds the binary node of both operands.
#[verifier::external_body]
pub(crate) fn engine_or(left: Expr, right: Expr) -> (expr: Expr)
    ensures
        expr == disjunction_expr(left, right),
{
    left.or(right)
}

/// Calls `Expr::xor`, which builds the binary node of both operands.
#[verifier::external_body]
pub(crate) fn engine_xor(left: Expr, right: Expr) -> (expr: Expr)
    ensures
        expr == exclusive_or_expr(left, right),
{
    left.xor(right)
}

/// Calls `Expr::gt`, which builds the binary node of both operands.
#[verifier::external_body]
pub(crate) fn engine_gt(left: Expr, right: Expr) -> (expr: Expr)
    ensures
        expr == greater_expr(left, right),
{
    left.gt(right)
}

/// Calls `Expr::gt_eq`, which builds the binary node of both operands.
#[verifier::external_body]
pub(crate) fn engine_gt_eq(left: Expr, right: Expr) -> (expr: Expr)
    ensures
        expr == greater_or_equal_expr(left, right),
{
    left.gt_eq(right)
}

/// Calls `Expr::lt`, which builds the binary node of both operands.
#[verifier::external_body]
pub(crate) fn engine_lt(left: Expr, right: Expr) -> (expr: Expr)
    ensures
        expr == less_expr(left, right),
{
    left.lt(right)
}

/// Calls `Expr::lt_eq`, which builds the binary node of both operands.
#[verifier::external_body]
pub(crate) fn engine_lt_eq(left: Expr, right: Expr) -> (expr: Expr)
    ensures
        expr == less_or_equal_expr(left, right),
{
    left.lt_eq(right)
}

/// Calls `Expr::eq`, which builds the binary node of both operands.
#[verifier::external_body]
pub(crate) fn engine_eq(left: Expr, right: Expr) -> (expr: Expr)
    ensures
        expr == equal_expr(left, right),
{
    left.eq(right)
}

/// Calls `Expr::neq`, which builds the binary node of both operands.
#[verifier::external_body]
pub(crate) fn engine_neq(left: Expr, right: Expr) -> (expr: Expr)
    ensures
        expr == not_equal_expr(left, right),
{
    left.neq(right)
}

/// Calls `Expr::map_many` on three expressions with the output type of the
/// first. The engine runs `func` later, on the materialized values of the
/// three, when it evaluates the expression. The node that comes back holds a
/// fresh handle to the function, so it is no function of the arguments.
#[verifier::external_body]
pub(crate) fn engine_map_many3(
    func: &Arc<Box<dyn SeriesFn3>>,
    first: Expr,
    second: Expr,
    third: Expr,
) -> (expr: Expr)
    ensures
        values_mapped(first, second, third, expr),
{
    let func = Arc::clone(func);
    first.map_many(
        move |columns: &mut [Column]| {
            let a = std::mem::take(&mut columns[0]).take_materialized_series();
            let b = std::mem::take(&mut columns[1]).take_materialized_series();
            let c = std::mem::take(&mut columns[2]).take_materialized_series();
            Ok(Some(func.apply(a, b, c).into()))
        },
        &[second, third],
        GetOutput::first(),
    )
}

/// Calls `DataFrame::get_column_names_str`, which lists the names of the
/// columns in the table's order.
#[verifier::external_body]
pub(crate) fn engine_column_names<'a>(frame: &'a DataFrame) -> (names: Vec<&'a str>)
    ensures
        borrowed_names_of(names@) == column_names(*frame),
{
    frame.get_column_names_str()
}

/// Calls `LazyFrame::filter` on the lazy form of the table and collects what
/// it gives into a table again. The outcome is the engine's: the filtered
/// table or its error.
#[verifier::external_body]
pub(crate) fn engine_filter(frame: DataFrame, predicate: Expr) -> (outcome: Result<
    DataFrame,
    PolarsError,
>)
    ensures
        filter_outcome(frame, predicate, outcome),
{
    frame.lazy().filter(predicate).collect()
}

/// Calls `LazyFrame::select` on the lazy form of the table and collects what
/// it gives into a table again. The outcome is the engine's: the projected
/// table or its error.
#[verifier::external_body]
pub(crate) fn engine_select(frame: DataFrame, columns: Vec<Expr>) -> (outcome: Result<
    DataFrame,
    PolarsError,
>)
    ensures
        select_outcome(frame, columns@, outcome),
{
    frame.lazy().select(columns).collect()
}

/// Calls `DataFrame::new` on two columns of 32-bit integers, each made by
/// `Column::new` from its name and values. `DataFrame::new` fails on equal
/// names and on columns of unequal length, which are left out here; otherwise
/// it keeps the columns as given.
#[verifier::external_body]
pub(crate) fn engine_int32_frame(
    first_name: &str,
    first: Vec<i32>,
    second_name: &str,
    second: Vec<i32>,
) -> (frame: DataFrame)
    requires
        first_name@ != second_name@,
        first.len() == second.len(),
    ensures
        column_names(frame) == seq![first_name@, second_name@],
        int32_column(frame, first_name@) == first@,
        int32_column(frame, second_name@) == second@,
{
    let columns = vec![Column::new(first_name.into(), first), Column::new(second_name.into(), second)];
    DataFrame::new(columns).unwrap()
}

} // verus!
