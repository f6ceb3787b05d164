//! Readers: deferred computations of an expression from an environment.
//!
//! A [`Reader`] is a tree. Its leaves are field lookups, literals and functions
//! of the environment; its inner nodes apply an operation of the engine, or a
//! function of the caller, to what their operands yield in the same
//! environment. One kind of node evaluates its operand under another prefix.
//!
//! The meaning of a reader is given on its model, [`ReaderModel`]: in which
//! environments it is defined, and which expressions it may evaluate to there.

use crate::engine::{
    alias_expr, column_expr, complement_expr, conjunction_expr, difference_expr, disjunction_expr,
    engine_add, engine_alias, engine_and, engine_cast_int32, engine_col, engine_div, engine_eq,
    engine_floor_div, engine_gt, engine_gt_eq, engine_lit_int32, engine_lt, engine_lt_eq,
    engine_map_many3, engine_mul, engine_neg, engine_neq, engine_not, engine_or, engine_pow,
    engine_rem, engine_sub, engine_xor, equal_expr, exclusive_or_expr, floor_quotient_expr,
    greater_expr, greater_or_equal_expr, int32_cast_expr, int32_literal_expr, less_expr,
    less_or_equal_expr, negation_expr, not_equal_expr, power_expr, product_expr, quotient_expr,
    remainder_expr, sum_expr, values_mapped,
};
use crate::lifting::{env_fn_relates, hold_env_fn, EnvFn, ExprFn1, ExprFn2, ExprFn3, SeriesFn3};
use crate::resolver::{Environment, EnvironmentModel, ResolverModel};
use crate::scalar::{literal_expr, IntoScalar, Scalar, ScalarModel};
use polars::prelude::{Expr, Series};
use std::sync::Arc;
use vstd::prelude::*;

verus! {

/// The operations of the engine on one expression.
#[derive(Clone, Copy, Debug)]
pub enum UnaryOp {
    Negate,
    Not,
}

/// The operations of the engine on two expressions.
#[derive(Clone, Copy, Debug)]
pub enum BinaryOp {
    Plus,
    Minus,
    Times,
    Divide,
    Modulo,
    FloorDivide,
    Power,
    And,
    Or,
    Xor,
    Greater,
    GreaterOrEqual,
    Less,
    LessOrEqual,
    Equal,
    NotEqual,
}

/// Which operand of an operation on two readers is evaluated first. It
/// decides which column is reported where both operands look up a column that
/// the schema lacks.
#[derive(Clone, Copy, Debug)]
pub enum Order {
    LeftFirst,
    RightFirst,
}

/// The engine's expression for an operation on one operand.
pub open spec fn unary_expr(op: UnaryOp, operand: Expr) -> Expr {
    match op {
        UnaryOp::Negate => negation_expr(operand),
        UnaryOp::Not => complement_expr(operand),
    }
}

/// The engine's expression for an operation on two operands.
pub open spec fn binary_expr(op: BinaryOp, left: Expr, right: Expr) -> Expr {
    match op {
        BinaryOp::Plus => sum_expr(left, right),
        BinaryOp::Minus => difference_expr(left, right),
        BinaryOp::Times => product_expr(left, right),
        BinaryOp::Divide => quotient_expr(left, right),
        BinaryOp::Modulo => remainder_expr(left, right),
        BinaryOp::FloorDivide => floor_quotient_expr(left, right),
        BinaryOp::Power => power_expr(left, right),
        BinaryOp::And => conjunction_expr(left, right),
        BinaryOp::Or => disjunction_expr(left, right),
        BinaryOp::Xor => exclusive_or_expr(left, right),
        BinaryOp::Greater => greater_expr(left, right),
        BinaryOp::GreaterOrEqual => greater_or_equal_expr(left, right),
        BinaryOp::Less => less_expr(left, right),
        BinaryOp::LessOrEqual => less_or_equal_expr(left, right),
        BinaryOp::Equal => equal_expr(left, right),
        BinaryOp::NotEqual => not_equal_expr(left, right),
    }
}

/// Applies an operation of the engine to one operand.
pub fn apply_unary(op: UnaryOp, operand: Expr) -> (expr: Expr)
    ensures
        expr == unary_expr(op, operand),
{
    match op {
        UnaryOp::Negate => engine_neg(operand),
        UnaryOp::Not => engine_not(operand),
    }
}

/// Applies an operation of the engine to two operands.
pub fn apply_binary(op: BinaryOp, left: Expr, right: Expr) -> (expr: Expr)
    ensures
        expr == binary_expr(op, left, right),
{
    match op {
        BinaryOp::Plus => engine_add(left, right),
        BinaryOp::Minus => engine_sub(left, right),
        BinaryOp::Times => engine_mul(left, right),
        BinaryOp::Divide => engine_div(left, right),
        BinaryOp::Modulo => engine_rem(left, right),
        BinaryOp::FloorDivide => engine_floor_div(left, right),
        BinaryOp::Power => engine_pow(left, right),
        BinaryOp::And => engine_and(left, right),
        BinaryOp::Or => engine_or(left, right),
        BinaryOp::Xor => engine_xor(left, right),
        BinaryOp::Greater => engine_gt(left, right),
        BinaryOp::GreaterOrEqual => engine_gt_eq(left, right),
        BinaryOp::Less => engine_lt(left, right),
        BinaryOp::LessOrEqual => engine_lt_eq(left, right),
        BinaryOp::Equal => engine_eq(left, right),
        BinaryOp::NotEqual => engine_neq(left, right),
    }
}

/// Mathematical model of a [`Reader`].
///
/// A function of the caller is modelled by the relation between its arguments
/// and the results it may return.
#[allow(inconsistent_fields)]
pub enum ReaderModel {
    /// The column that a logical field name stands for.
    Column { name: Seq<char> },
    /// A literal, whatever the environment.
    Constant { value: ScalarModel },
    /// A 32-bit integer literal, cast to the 32-bit integer type: the other
    /// operand of an operator applied to a reader and a plain integer.
    Int32 { value: i32 },
    /// The inner reader, evaluated under `prefix` in place of the prefix in force.
    Scoped { prefix: Seq<char>, inner: Box<ReaderModel> },
    /// An operation of the engine on what one reader yields.
    Unary { op: UnaryOp, inner: Box<ReaderModel> },
    /// An operation of the engine on what two readers yield in the same environment.
    Binary { op: BinaryOp, order: Order, left: Box<ReaderModel>, right: Box<ReaderModel> },
    /// The inner reader's expression under another name.
    Alias { inner: Box<ReaderModel>, name: Seq<char> },
    /// A function of the environment.
    Computed { relation: spec_fn(EnvironmentModel, Expr) -> bool },
    /// A function of the caller on what one reader yields.
    Lift1 { relation: spec_fn(Expr, Expr) -> bool, arg: Box<ReaderModel> },
    /// A function of the caller on what two readers yield in the same environment.
    Lift2 {
        relation: spec_fn(Expr, Expr, Expr) -> bool,
        first: Box<ReaderModel>,
        second: Box<ReaderModel>,
    },
    /// A function of the caller on what three readers yield in the same environment.
    Lift3 {
        relation: spec_fn(Expr, Expr, Expr, Expr) -> bool,
        first: Box<ReaderModel>,
        second: Box<ReaderModel>,
        third: Box<ReaderModel>,
    },
    /// A function on materialized values, which the engine applies when it
    /// evaluates the expression built from what three readers yield. The
    /// function does not run when the reader does; `relation` says what it may
    /// return on the values that the engine hands it.
    Series3 {
        relation: spec_fn(Series, Series, Series, Series) -> bool,
        first: Box<ReaderModel>,
        second: Box<ReaderModel>,
        third: Box<ReaderModel>,
    },
}

impl ReaderModel {
    /// The first column, in evaluation order, that the reader looks up and
    /// that the schema lacks; `None` where every lookup succeeds. The operands
    /// of an operation of the engine are evaluated in the order that the node
    /// names, those of a function of the caller from first to last.
    pub open spec fn first_missing(self, env: EnvironmentModel) -> Option<Seq<char>>
        decreases self,
    {
        match self {
            ReaderModel::Column { name } => if env.resolver.resolves(name) {
                None
            } else {
                Some(env.resolver.qualified(name))
            },
            ReaderModel::Constant { .. } => None,
            ReaderModel::Int32 { .. } => None,
            ReaderModel::Scoped { prefix, inner } => inner.first_missing(env.with_prefix(prefix)),
            ReaderModel::Unary { inner, .. } => inner.first_missing(env),
            ReaderModel::Binary { order, left, right, .. } => match order {
                Order::LeftFirst => match left.first_missing(env) {
                    Some(column) => Some(column),
                    None => right.first_missing(env),
                },
                Order::RightFirst => match right.first_missing(env) {
                    Some(column) => Some(column),
                    None => left.first_missing(env),
                },
            },
            ReaderModel::Alias { inner, .. } => inner.first_missing(env),
            ReaderModel::Computed { .. } => None,
            ReaderModel::Lift1 { arg, .. } => arg.first_missing(env),
            ReaderModel::Lift2 { first, second, .. } => match first.first_missing(env) {
                Some(column) => Some(column),
                None => second.first_missing(env),
            },
            ReaderModel::Lift3 { first, second, third, .. } => match first.first_missing(env) {
                Some(column) => Some(column),
                None => match second.first_missing(env) {
                    Some(column) => Some(column),
                    None => third.first_missing(env),
                },
            },
            ReaderModel::Series3 { first, second, third, .. } => match first.first_missing(env) {
                Some(column) => Some(column),
                None => match second.first_missing(env) {
                    Some(column) => Some(column),
                    None => third.first_missing(env),
                },
            },
        }
    }

    /// Whether the reader can be evaluated in `env`: every field that it looks
    /// up stands for a column of the schema, under the prefix that holds where
    /// the lookup stands.
    pub open spec fn defined_in(self, env: EnvironmentModel) -> bool {
        self.first_missing(env) is None
    }

    /// The expressions that the reader may evaluate to in `env`.
    ///
    /// A reader built from fields, literals and operations of the engine has
    /// one such expression at most. A function of the caller may allow several.
    pub open spec fn outputs(self, env: EnvironmentModel) -> Set<Expr>
        decreases self,
    {
        match self {
            ReaderModel::Column { name } => if env.resolver.resolves(name) {
                set![column_expr(env.resolver.qualified(name))]
            } else {
                Set::empty()
            },
            ReaderModel::Constant { value } => set![literal_expr(value)],
            ReaderModel::Int32 { value } => set![int32_cast_expr(int32_literal_expr(value))],
            ReaderModel::Scoped { prefix, inner } => inner.outputs(env.with_prefix(prefix)),
            ReaderModel::Unary { op, inner } => {
                let operands = inner.outputs(env);
                Set::new(
                    |out: Expr|
                        exists|x: Expr| #[trigger]
                            operands.contains(x) && out == unary_expr(op, x),
                )
            },
            ReaderModel::Binary { op, left, right, .. } => {
                let lefts = left.outputs(env);
                let rights = right.outputs(env);
                Set::new(
                    |out: Expr|
                        exists|x: Expr, y: Expr|
                            #![trigger lefts.contains(x), rights.contains(y)]
                            lefts.contains(x) && rights.contains(y) && out == binary_expr(
                                op,
                                x,
                                y,
                            ),
                )
            },
            ReaderModel::Alias { inner, name } => {
                let operands = inner.outputs(env);
                Set::new(
                    |out: Expr|
                        exists|x: Expr| #[trigger]
                            operands.contains(x) && out == alias_expr(x, name),
                )
            },
            ReaderModel::Computed { relation } => Set::new(|out: Expr| relation(env, out)),
            ReaderModel::Lift1 { relation, arg } => {
                let args = arg.outputs(env);
                Set::new(
                    |out: Expr| exists|x: Expr| #[trigger] args.contains(x) && relation(x, out),
                )
            },
            ReaderModel::Lift2 { relation, first, second } => {
                let firsts = first.outputs(env);
                let seconds = second.outputs(env);
                Set::new(
                    |out: Expr|
                        exists|x: Expr, y: Expr|
                            #![trigger firsts.contains(x), seconds.contains(y)]
                            firsts.contains(x) && seconds.contains(y) && relation(x, y, out),
                )
            },
            ReaderModel::Lift3 { relation, first, second, third } => {
                let firsts = first.outputs(env);
                let seconds = second.outputs(env);
                let thirds = third.outputs(env);
                Set::new(
                    |out: Expr|
                        exists|x: Expr, y: Expr, z: Expr|
                            #![trigger firsts.contains(x), seconds.contains(y), thirds.contains(z)]
                            firsts.contains(x) && seconds.contains(y) && thirds.contains(z)
                                && relation(x, y, z, out),
                )
            },
            ReaderModel::Series3 { first, second, third, .. } => {
                let firsts = first.outputs(env);
                let seconds = second.outputs(env);
                let thirds = third.outputs(env);
                Set::new(
                    |out: Expr|
                        exists|x: Expr, y: Expr, z: Expr|
                            #![trigger firsts.contains(x), seconds.contains(y), thirds.contains(z)]
                            firsts.contains(x) && seconds.contains(y) && thirds.contains(z)
                                && values_mapped(x, y, z, out),
                )
            },
        }
    }

    /// Whether the reader may evaluate to `out` in `env`.
    pub open spec fn evaluates_to(self, env: EnvironmentModel, out: Expr) -> bool {
        self.outputs(env).contains(out)
    }

    /// Whether every part of the reader yields one expression only in each
    /// environment: each function of the caller returns one result on each
    /// argument, and no function on materialized values takes part.
    pub open spec fn deterministic(self) -> bool
        decreases self,
    {
        match self {
            ReaderModel::Column { .. } => true,
            ReaderModel::Constant { .. } => true,
            ReaderModel::Int32 { .. } => true,
            ReaderModel::Scoped { inner, .. } => inner.deterministic(),
            ReaderModel::Unary { inner, .. } => inner.deterministic(),
            ReaderModel::Binary { left, right, .. } => left.deterministic()
                && right.deterministic(),
            ReaderModel::Alias { inner, .. } => inner.deterministic(),
            ReaderModel::Computed { relation } => forall|env: EnvironmentModel, a: Expr, b: Expr|
                #![trigger relation(env, a), relation(env, b)]
                relation(env, a) && relation(env, b) ==> a == b,
            ReaderModel::Lift1 { relation, arg } => arg.deterministic() && forall|
                x: Expr,
                a: Expr,
                b: Expr,
            |
                #![trigger relation(x, a), relation(x, b)]
                relation(x, a) && relation(x, b) ==> a == b,
            ReaderModel::Lift2 { relation, first, second } => first.deterministic()
                && second.deterministic() && forall|x: Expr, y: Expr, a: Expr, b: Expr|
                #![trigger relation(x, y, a), relation(x, y, b)]
                relation(x, y, a) && relation(x, y, b) ==> a == b,
            ReaderModel::Lift3 { relation, first, second, third } => first.deterministic()
                && second.deterministic() && third.deterministic() && forall|
                x: Expr,
                y: Expr,
                z: Expr,
                a: Expr,
                b: Expr,
            |
                #![trigger relation(x, y, z, a), relation(x, y, z, b)]
                relation(x, y, z, a) && relation(x, y, z, b) ==> a == b,
            ReaderModel::Series3 { .. } => false,
        }
    }
}

/// What evaluating a reader in `env` comes to: an expression that the reader
/// may evaluate to, where it is defined there, and else the resolver's message
/// for the first column that the schema lacks.
pub open spec fn evaluation(
    reader: ReaderModel,
    env: EnvironmentModel,
    outcome: Result<Expr, String>,
) -> bool {
    match outcome {
        Ok(out) => reader.defined_in(env) && reader.evaluates_to(env, out),
        Err(message) => reader.first_missing(env) matches Some(column) && message@
            == ResolverModel::missing(column),
    }
}

/// One node of a reader.
#[allow(inconsistent_fields)]
enum Node {
    Column { name: String },
    Constant { value: Scalar },
    Int32 { value: i32 },
    Scoped { prefix: String, inner: Reader },
    Unary { op: UnaryOp, inner: Reader },
    Binary { op: BinaryOp, order: Order, left: Reader, right: Reader },
    Alias { inner: Reader, name: String },
    Computed { func: Arc<Box<dyn EnvFn>> },
    Lift1 { func: Arc<Box<dyn ExprFn1>>, arg: Reader },
    Lift2 { func: Arc<Box<dyn ExprFn2>>, first: Reader, second: Reader },
    Lift3 { func: Arc<Box<dyn ExprFn3>>, first: Reader, second: Reader, third: Reader },
    Series3 { func: Arc<Box<dyn SeriesFn3>>, first: Reader, second: Reader, third: Reader },
}

/// A deferred computation of an expression from an environment.
///
/// A reader holds no state that changes. A clone shares the tree.
pub struct Reader {
    node: Arc<Node>,
}

/// Calls `Arc::clone`, which hands out another pointer to the same node.
/// Nothing is proved of it: the contract is what the standard library
/// documents.
#[verifier::external_body]
fn share(node: &Arc<Node>) -> (shared: Arc<Node>)
    ensures
        shared == *node,
{
    Arc::clone(node)
}

impl Clone for Reader {
    fn clone(&self) -> (copy: Self)
        ensures
            copy == *self,
    {
        Reader { node: share(&self.node) }
    }
}

/// The model of a reader, node by node.
spec fn model_of(reader: Reader) -> ReaderModel
    decreases reader,
{
    match *reader.node {
        Node::Column { name } => ReaderModel::Column { name: name@ },
        Node::Constant { value } => ReaderModel::Constant { value: value@ },
        Node::Int32 { value } => ReaderModel::Int32 { value },
        Node::Scoped { prefix, inner } => ReaderModel::Scoped {
            prefix: prefix@,
            inner: Box::new(model_of(inner)),
        },
        Node::Unary { op, inner } => ReaderModel::Unary { op, inner: Box::new(model_of(inner)) },
        Node::Binary { op, order, left, right } => ReaderModel::Binary {
            op,
            order,
            left: Box::new(model_of(left)),
            right: Box::new(model_of(right)),
        },
        Node::Alias { inner, name } => ReaderModel::Alias {
            inner: Box::new(model_of(inner)),
            name: name@,
        },
        Node::Computed { func } => ReaderModel::Computed {
            relation: |env: EnvironmentModel, out: Expr| func.relates(env, out),
        },
        Node::Lift1 { func, arg } => ReaderModel::Lift1 {
            relation: |x: Expr, out: Expr| func.relates(x, out),
            arg: Box::new(model_of(arg)),
        },
        Node::Lift2 { func, first, second } => ReaderModel::Lift2 {
            relation: |x: Expr, y: Expr, out: Expr| func.relates(x, y, out),
            first: Box::new(model_of(first)),
            second: Box::new(model_of(second)),
        },
        Node::Lift3 { func, first, second, third } => ReaderModel::Lift3 {
            relation: |x: Expr, y: Expr, z: Expr, out: Expr| func.relates(x, y, z, out),
            first: Box::new(model_of(first)),
            second: Box::new(model_of(second)),
            third: Box::new(model_of(third)),
        },
        Node::Series3 { func, first, second, third } => ReaderModel::Series3 {
            relation: |a: Series, b: Series, c: Series, out: Series| func.relates(a, b, c, out),
            first: Box::new(model_of(first)),
            second: Box::new(model_of(second)),
            third: Box::new(model_of(third)),
        },
    }
}

impl View for Reader {
    type V = ReaderModel;

    closed spec fn view(&self) -> ReaderModel {
        model_of(*self)
    }
}

/// What can stand where a reader is expected: a reader, a field, a literal.
pub trait IntoReader: Sized {
    /// The model of the reader that the value converts to.
    spec fn reader_model(&self) -> ReaderModel;

    fn into_reader(self) -> (reader: Reader)
        ensures
            reader@ == self.reader_model(),
    ;
}

impl IntoReader for Reader {
    open spec fn reader_model(&self) -> ReaderModel {
        self@
    }

    fn into_reader(self) -> (reader: Reader) {
        self
    }
}

impl<T: IntoScalar> IntoReader for T {
    open spec fn reader_model(&self) -> ReaderModel {
        ReaderModel::Constant { value: self.scalar() }
    }

    fn into_reader(self) -> (reader: Reader) {
        Reader::constant(self.into_scalar())
    }
}

impl Reader {
    /// The reader that applies `op` to what `inner` yields, as a value of specifications.
    pub closed spec fn unary_of(op: UnaryOp, inner: Reader) -> Reader {
        Reader { node: Arc::new(Node::Unary { op, inner }) }
    }

    /// The reader that applies `op` to what `left` and `right` yield, as a
    /// value of specifications.
    pub closed spec fn binary_of(op: BinaryOp, order: Order, left: Reader, right: Reader) -> Reader {
        Reader { node: Arc::new(Node::Binary { op, order, left, right }) }
    }

    /// The reader of a 32-bit integer operand, as a value of specifications.
    pub closed spec fn int32_of(value: i32) -> Reader {
        Reader { node: Arc::new(Node::Int32 { value }) }
    }

    /// The reader with root `node`.
    fn from_node(node: Node) -> (reader: Reader)
        ensures
            *reader.node == node,
    {
        Reader { node: Arc::new(node) }
    }

    /// The reader of the column that `name` stands for.
    pub(crate) fn column(name: String) -> (reader: Reader)
        ensures
            reader@ == (ReaderModel::Column { name: name@ }),
    {
        Reader::from_node(Node::Column { name })
    }

    /// The reader of a literal.
    pub(crate) fn constant(value: Scalar) -> (reader: Reader)
        ensures
            reader@ == (ReaderModel::Constant { value: value@ }),
    {
        Reader::from_node(Node::Constant { value })
    }

    /// The reader of a 32-bit integer operand.
    pub(crate) fn int32(value: i32) -> (reader: Reader)
        ensures
            reader == Reader::int32_of(value),
            reader@ == (ReaderModel::Int32 { value }),
    {
        Reader::from_node(Node::Int32 { value })
    }

    /// The reader that evaluates `inner` under `prefix`.
    pub(crate) fn scoped(prefix: String, inner: Reader) -> (reader: Reader)
        ensures
            reader@ == (ReaderModel::Scoped { prefix: prefix@, inner: Box::new(inner@) }),
    {
        Reader::from_node(Node::Scoped { prefix, inner })
    }

    /// The reader that applies `op` to what `inner` yields.
    pub(crate) fn unary(op: UnaryOp, inner: Reader) -> (reader: Reader)
        ensures
            reader == Reader::unary_of(op, inner),
            reader@ == (ReaderModel::Unary { op, inner: Box::new(inner@) }),
    {
        Reader::from_node(Node::Unary { op, inner })
    }

    /// The reader that applies `op` to what `left` and `right` yield.
    pub(crate) fn binary(op: BinaryOp, order: Order, left: Reader, right: Reader) -> (reader:
        Reader)
        ensures
            reader == Reader::binary_of(op, order, left, right),
            reader@ == (ReaderModel::Binary {
                op,
                order,
                left: Box::new(left@),
                right: Box::new(right@),
            }),
    {
        Reader::from_node(Node::Binary { op, order, left, right })
    }

    /// The reader that applies `func` to what `arg` yields.
    pub(crate) fn lift1(func: Arc<Box<dyn ExprFn1>>, arg: Reader) -> (reader: Reader)
        ensures
            reader@ matches ReaderModel::Lift1 { relation, arg: operand } && *operand == arg@
                && forall|x: Expr, out: Expr|
                #![trigger relation(x, out)]
                #![trigger func.relates(x, out)]
                relation(x, out) <==> func.relates(x, out),
    {
        Reader::from_node(Node::Lift1 { func, arg })
    }

    /// The reader that applies `func` to what `first` and `second` yield.
    pub(crate) fn lift2(func: Arc<Box<dyn ExprFn2>>, first: Reader, second: Reader) -> (reader:
        Reader)
        ensures
            reader@ matches ReaderModel::Lift2 { relation, first: x, second: y } && *x == first@
                && *y == second@ && forall|x: Expr, y: Expr, out: Expr|
                #![trigger relation(x, y, out)]
                #![trigger func.relates(x, y, out)]
                relation(x, y, out) <==> func.relates(x, y, out),
    {
        Reader::from_node(Node::Lift2 { func, first, second })
    }

    /// The reader that applies `func` to what `first`, `second` and `third` yield.
    pub(crate) fn lift3(
        func: Arc<Box<dyn ExprFn3>>,
        first: Reader,
        second: Reader,
        third: Reader,
    ) -> (reader: Reader)
        ensures
            reader@ matches ReaderModel::Lift3 { relation, first: x, second: y, third: z } && *x
                == first@ && *y == second@ && *z == third@ && forall|
                x: Expr,
                y: Expr,
                z: Expr,
                out: Expr,
            |
                #![trigger relation(x, y, z, out)]
                #![trigger func.relates(x, y, z, out)]
                relation(x, y, z, out) <==> func.relates(x, y, z, out),
    {
        Reader::from_node(Node::Lift3 { func, first, second, third })
    }

    /// The reader that has the engine apply `func` to the values of what
    /// `first`, `second` and `third` yield.
    pub(crate) fn series3(
        func: Arc<Box<dyn SeriesFn3>>,
        first: Reader,
        second: Reader,
        third: Reader,
    ) -> (reader: Reader)
        ensures
            reader@ matches ReaderModel::Series3 { relation, first: x, second: y, third: z } && *x
                == first@ && *y == second@ && *z == third@ && forall|
                a: Series,
                b: Series,
                c: Series,
                out: Series,
            |
                #![trigger relation(a, b, c, out)]
                #![trigger func.relates(a, b, c, out)]
                relation(a, b, c, out) <==> func.relates(a, b, c, out),
    {
        Reader::from_node(Node::Series3 { func, first, second, third })
    }

    /// Wraps a function of the environment as a reader.
    ///
    /// The function has to accept every environment. The reader evaluates to
    /// what the function returns in the environment at hand.
    pub fn new<F>(func: F) -> (reader: Reader) where
        F: Fn(&Environment) -> Expr + Send + Sync + 'static,

        requires
            forall|env: Environment| call_requires(func, (&env,)),
        ensures
            reader@ matches ReaderModel::Computed { relation } && forall|
                env: EnvironmentModel,
                out: Expr,
            |
                #![trigger relation(env, out)]
                #![trigger env_fn_relates(func, env, out)]
                relation(env, out) <==> env_fn_relates(func, env, out),
    {
        Reader::computed(hold_env_fn(func))
    }

    /// The reader of what `func` computes from the environment.
    pub(crate) fn computed(func: Arc<Box<dyn EnvFn>>) -> (reader: Reader)
        ensures
            reader@ matches ReaderModel::Computed { relation } && forall|
                env: EnvironmentModel,
                out: Expr,
            |
                #![trigger relation(env, out)]
                #![trigger func.relates(env, out)]
                relation(env, out) <==> func.relates(env, out),
    {
        Reader::from_node(Node::Computed { func })
    }

    /// The reader whose expression is this reader's under the name `name`.
    pub fn alias(self, name: &str) -> (reader: Reader)
        ensures
            reader@ == (ReaderModel::Alias { inner: Box::new(self@), name: name@ }),
    {
        Reader::from_node(Node::Alias { inner: self, name: String::from_str(name) })
    }

    /// Floor division of what this reader yields by what `rhs` yields.
    pub fn floor_div<R: IntoReader>(self, rhs: R) -> (reader: Reader)
        ensures
            reader@ == (ReaderModel::Binary {
                op: BinaryOp::FloorDivide,
                order: Order::RightFirst,
                left: Box::new(self@),
                right: Box::new(rhs.reader_model()),
            }),
    {
        Reader::binary(BinaryOp::FloorDivide, Order::RightFirst, self, rhs.into_reader())
    }

    /// What this reader yields, raised to the power of what `rhs` yields.
    pub fn pow<R: IntoReader>(self, rhs: R) -> (reader: Reader)
        ensures
            reader@ == (ReaderModel::Binary {
                op: BinaryOp::Power,
                order: Order::RightFirst,
                left: Box::new(self@),
                right: Box::new(rhs.reader_model()),
            }),
    {
        Reader::binary(BinaryOp::Power, Order::RightFirst, self, rhs.into_reader())
    }

    /// Whether what this reader yields is greater than what `rhs` yields.
    pub fn gt<R: IntoReader>(self, rhs: R) -> (reader: Reader)
        ensures
            reader@ == (ReaderModel::Binary {
                op: BinaryOp::Greater,
                order: Order::RightFirst,
                left: Box::new(self@),
                right: Box::new(rhs.reader_model()),
            }),
    {
        Reader::binary(BinaryOp::Greater, Order::RightFirst, self, rhs.into_reader())
    }

    /// Whether what this reader yields is greater than or equal to what `rhs` yields.
    pub fn gt_eq<R: IntoReader>(self, rhs: R) -> (reader: Reader)
        ensures
            reader@ == (ReaderModel::Binary {
                op: BinaryOp::GreaterOrEqual,
                order: Order::RightFirst,
                left: Box::new(self@),
                right: Box::new(rhs.reader_model()),
            }),
    {
        Reader::binary(BinaryOp::GreaterOrEqual, Order::RightFirst, self, rhs.into_reader())
    }

    /// Whether what this reader yields is less than what `rhs` yields.
    pub fn lt<R: IntoReader>(self, rhs: R) -> (reader: Reader)
        ensures
            reader@ == (ReaderModel::Binary {
                op: BinaryOp::Less,
                order: Order::RightFirst,
                left: Box::new(self@),
                right: Box::new(rhs.reader_model()),
            }),
    {
        Reader::binary(BinaryOp::Less, Order::RightFirst, self, rhs.into_reader())
    }

    /// Whether what this reader yields is less than or equal to what `rhs` yields.
    pub fn lt_eq<R: IntoReader>(self, rhs: R) -> (reader: Reader)
        ensures
            reader@ == (ReaderModel::Binary {
                op: BinaryOp::LessOrEqual,
                order: Order::RightFirst,
                left: Box::new(self@),
                right: Box::new(rhs.reader_model()),
            }),
    {
        Reader::binary(BinaryOp::LessOrEqual, Order::RightFirst, self, rhs.into_reader())
    }

    /// Whether what this reader yields equals what `rhs` yields.
    pub fn eq_to<R: IntoReader>(self, rhs: R) -> (reader: Reader)
        ensures
            reader@ == (ReaderModel::Binary {
                op: BinaryOp::Equal,
                order: Order::RightFirst,
                left: Box::new(self@),
                right: Box::new(rhs.reader_model()),
            }),
    {
        Reader::binary(BinaryOp::Equal, Order::RightFirst, self, rhs.into_reader())
    }

    /// Whether what this reader yields differs from what `rhs` yields.
    pub fn ne_to<R: IntoReader>(self, rhs: R) -> (reader: Reader)
        ensures
            reader@ == (ReaderModel::Binary {
                op: BinaryOp::NotEqual,
                order: Order::RightFirst,
                left: Box::new(self@),
                right: Box::new(rhs.reader_model()),
            }),
    {
        Reader::binary(BinaryOp::NotEqual, Order::RightFirst, self, rhs.into_reader())
    }

    /// Evaluates the reader in `env`.
    ///
    /// Succeeds exactly where the reader is defined in `env`. Otherwise the
    /// error is the resolver's message for the first column, in evaluation
    /// order, that the schema lacks.
    pub fn try_run(&self, env: &Environment) -> (outcome: Result<Expr, String>)
        ensures
            evaluation(self@, env@, outcome),
        decreases self,
    {
        match &*self.node {
            Node::Column { name } => {
                match env.resolver().resolve(name.as_str()) {
                    Ok(column) => Ok(engine_col(column.as_str())),
                    Err(message) => Err(message),
                }
            },
            Node::Constant { value } => Ok(value.lift()),
            Node::Int32 { value } => Ok(engine_cast_int32(engine_lit_int32(*value))),
            Node::Scoped { prefix, inner } => {
                let scoped = env.with_prefix(prefix.as_str());
                inner.try_run(&scoped)
            },
            Node::Unary { op, inner } => {
                match inner.try_run(env) {
                    Ok(operand) => Ok(apply_unary(*op, operand)),
                    Err(message) => Err(message),
                }
            },
            Node::Binary { op, order, left, right } => {
                match order {
                    Order::LeftFirst => match left.try_run(env) {
                        Ok(x) => match right.try_run(env) {
                            Ok(y) => Ok(apply_binary(*op, x, y)),
                            Err(message) => Err(message),
                        },
                        Err(message) => Err(message),
                    },
                    Order::RightFirst => match right.try_run(env) {
                        Ok(y) => match left.try_run(env) {
                            Ok(x) => Ok(apply_binary(*op, x, y)),
                            Err(message) => Err(message),
                        },
                        Err(message) => Err(message),
                    },
                }
            },
            Node::Alias { inner, name } => {
                match inner.try_run(env) {
                    Ok(operand) => Ok(engine_alias(operand, name.as_str())),
                    Err(message) => Err(message),
                }
            },
            Node::Computed { func } => Ok(func.apply(env)),
            Node::Lift1 { func, arg } => {
                match arg.try_run(env) {
                    Ok(x) => Ok(func.apply(x)),
                    Err(message) => Err(message),
                }
            },
            Node::Lift2 { func, first, second } => {
                match first.try_run(env) {
                    Ok(x) => match second.try_run(env) {
                        Ok(y) => Ok(func.apply(x, y)),
                        Err(message) => Err(message),
                    },
                    Err(message) => Err(message),
                }
            },
            Node::Lift3 { func, first, second, third } => {
                match first.try_run(env) {
                    Ok(x) => match second.try_run(env) {
                        Ok(y) => match third.try_run(env) {
                            Ok(z) => Ok(func.apply(x, y, z)),
                            Err(message) => Err(message),
                        },
                        Err(message) => Err(message),
                    },
                    Err(message) => Err(message),
                }
            },
            Node::Series3 { func, first, second, third } => {
                match first.try_run(env) {
                    Ok(x) => match second.try_run(env) {
                        Ok(y) => match third.try_run(env) {
                            Ok(z) => Ok(engine_map_many3(func, x, y, z)),
                            Err(message) => Err(message),
                        },
                        Err(message) => Err(message),
                    },
                    Err(message) => Err(message),
                }
            },
        }
    }

    /// Evaluates the reader in an environment in which it is defined.
    pub fn run(&self, env: &Environment) -> (out: Expr)
        requires
            self@.defined_in(env@),
        ensures
            self@.evaluates_to(env@, out),
    {
        match self.try_run(env) {
            Ok(out) => out,
            Err(_) => vstd::pervasive::unreached(),
        }
    }

    /// The first column, in evaluation order, that the reader looks up in
    /// `env` and that the schema lacks. Nothing is evaluated for it.
    pub fn first_missing(&self, env: &Environment) -> (missing: Option<String>)
        ensures
            match missing {
                Some(column) => self@.first_missing(env@) == Some(column@),
                None => self@.first_missing(env@) is None,
            },
        decreases self,
    {
        match &*self.node {
            Node::Column { name } => {
                match env.resolver().resolve(name.as_str()) {
                    Ok(_) => None,
                    Err(_) => Some(String::from_str(env.resolver().prefix()).concat(name.as_str())),
                }
            },
            Node::Constant { .. } => None,
            Node::Int32 { .. } => None,
            Node::Scoped { prefix, inner } => {
                let scoped = env.with_prefix(prefix.as_str());
                inner.first_missing(&scoped)
            },
            Node::Unary { inner, .. } => inner.first_missing(env),
            Node::Binary { order, left, right, .. } => {
                match order {
                    Order::LeftFirst => earlier(left.first_missing(env), right.first_missing(env)),
                    Order::RightFirst => earlier(right.first_missing(env), left.first_missing(env)),
                }
            },
            Node::Alias { inner, .. } => inner.first_missing(env),
            Node::Computed { .. } => None,
            Node::Lift1 { arg, .. } => arg.first_missing(env),
            Node::Lift2 { first, second, .. } => earlier(
                first.first_missing(env),
                second.first_missing(env),
            ),
            Node::Lift3 { first, second, third, .. } => earlier(
                first.first_missing(env),
                earlier(second.first_missing(env), third.first_missing(env)),
            ),
            Node::Series3 { first, second, third, .. } => earlier(
                first.first_missing(env),
                earlier(second.first_missing(env), third.first_missing(env)),
            ),
        }
    }

    /// Whether the reader is defined in `env`.
    pub fn is_defined_in(&self, env: &Environment) -> (defined: bool)
        ensures
            defined == self@.defined_in(env@),
    {
        self.first_missing(env).is_none()
    }
}

/// The earlier of two findings: the first where there is one, else the second.
fn earlier(first: Option<String>, second: Option<String>) -> (found: Option<String>)
    ensures
        found == match first {
            Some(column) => Some(column),
            None => second,
        },
{
    match first {
        Some(column) => Some(column),
        None => second,
    }
}

} // verus!
