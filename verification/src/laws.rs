//! Laws of resolvers, environments and readers, proved on their models.

use crate::engine::column_expr;
use crate::pipeline::{ends_in, Ending, StepModel};
use crate::reader::{binary_expr, BinaryOp, Order, ReaderModel};
use crate::resolver::{EnvironmentModel, ResolverModel};
use crate::scalar::{literal_expr, ScalarModel};
use polars::prelude::{DataFrame, Expr, PolarsError};
use vstd::prelude::*;

verus! {

/// Resolution succeeds exactly on the names whose qualified form is a column
/// of the schema, and then yields that qualified form.
pub proof fn lemma_resolution_is_membership(resolver: ResolverModel, name: Seq<char>)
    ensures
        resolver.resolution(name) is Ok <==> resolver.schema.contains(resolver.prefix + name),
        resolver.resolution(name) is Ok ==> resolver.resolution(name) == Ok::<
            Seq<char>,
            Seq<char>,
        >(resolver.prefix + name),
{
}

/// Setting a prefix replaces the one in force: setting `first` and then
/// `second` leaves the same resolver as setting `second` alone, so every name
/// resolves alike under both.
pub proof fn lemma_with_prefix_replaces(
    resolver: ResolverModel,
    first: Seq<char>,
    second: Seq<char>,
    name: Seq<char>,
)
    ensures
        resolver.with_prefix(first).with_prefix(second) == resolver.with_prefix(second),
        resolver.with_prefix(first).with_prefix(second).resolution(name) == resolver.with_prefix(
            second,
        ).resolution(name),
{
}

/// Clearing the prefix is setting the empty prefix: every name resolves alike
/// under both.
pub proof fn lemma_clear_prefix_is_empty_prefix(resolver: ResolverModel, name: Seq<char>)
    ensures
        resolver.clear_prefix() == resolver.with_prefix(""@),
        resolver.clear_prefix().resolution(name) == resolver.with_prefix(""@).resolution(name),
{
    reveal_strlit("");
    assert(""@ =~= Seq::<char>::empty());
}

/// Setting a prefix on an environment replaces the one in force: setting
/// `first` and then `second` gives the environment that setting `second` alone
/// gives, so every reader means the same in both.
pub proof fn lemma_environment_prefix_replaces(
    env: EnvironmentModel,
    first: Seq<char>,
    second: Seq<char>,
    reader: ReaderModel,
)
    ensures
        env.with_prefix(first).with_prefix(second) == env.with_prefix(second),
        reader.outputs(env.with_prefix(first).with_prefix(second)) == reader.outputs(
            env.with_prefix(second),
        ),
        reader.first_missing(env.with_prefix(first).with_prefix(second)) == reader.first_missing(
            env.with_prefix(second),
        ),
{
}

/// Clearing the prefix of an environment is setting the empty prefix, so
/// every reader means the same in both.
pub proof fn lemma_environment_clear_is_empty_prefix(env: EnvironmentModel, reader: ReaderModel)
    ensures
        env.clear_prefix() == env.with_prefix(""@),
        reader.outputs(env.clear_prefix()) == reader.outputs(env.with_prefix(""@)),
        reader.first_missing(env.clear_prefix()) == reader.first_missing(env.with_prefix(""@)),
{
    reveal_strlit("");
    assert(""@ =~= Seq::<char>::empty());
}

/// A field evaluates to the column that its name stands for in the
/// environment at hand, and to nothing else; it is defined exactly where that
/// column is part of the schema. So one field read in two environments follows
/// each of them.
pub proof fn lemma_field_follows_environment(name: Seq<char>, env: EnvironmentModel, out: Expr)
    ensures
        (ReaderModel::Column { name }).defined_in(env) <==> env.resolver.schema.contains(
            env.resolver.prefix + name,
        ),
        (ReaderModel::Column { name }).evaluates_to(env, out) <==> env.resolver.schema.contains(
            env.resolver.prefix + name,
        ) && out == column_expr(env.resolver.prefix + name),
{
}

/// A reader under a prefix override means, in any environment, what the inner
/// reader means in that environment with the prefix replaced. The prefix in
/// force outside plays no part: the override means the same under any other
/// ambient prefix.
pub proof fn lemma_override_ignores_ambient_prefix(
    prefix: Seq<char>,
    inner: ReaderModel,
    env: EnvironmentModel,
    ambient: Seq<char>,
)
    ensures
        (ReaderModel::Scoped { prefix, inner: Box::new(inner) }).outputs(env) == inner.outputs(
            env.with_prefix(prefix),
        ),
        (ReaderModel::Scoped { prefix, inner: Box::new(inner) }).first_missing(env)
            == inner.first_missing(env.with_prefix(prefix)),
        (ReaderModel::Scoped { prefix, inner: Box::new(inner) }).outputs(env.with_prefix(ambient))
            == (ReaderModel::Scoped { prefix, inner: Box::new(inner) }).outputs(env),
        (ReaderModel::Scoped { prefix, inner: Box::new(inner) }).first_missing(
            env.with_prefix(ambient),
        ) == (ReaderModel::Scoped { prefix, inner: Box::new(inner) }).first_missing(env),
{
    assert(env.with_prefix(ambient).with_prefix(prefix) == env.with_prefix(prefix));
}

/// In an operation on a reader and a reader under a prefix override, the
/// override binds the overridden operand only: the other operand is evaluated
/// in the ambient environment.
pub proof fn lemma_override_leaves_sibling(
    op: BinaryOp,
    order: Order,
    sibling: ReaderModel,
    prefix: Seq<char>,
    inner: ReaderModel,
    env: EnvironmentModel,
    out: Expr,
)
    ensures
        (ReaderModel::Binary {
            op,
            order,
            left: Box::new(sibling),
            right: Box::new(ReaderModel::Scoped { prefix, inner: Box::new(inner) }),
        }).evaluates_to(env, out) <==> exists|x: Expr, y: Expr|
            #![trigger sibling.evaluates_to(env, x), inner.evaluates_to(env.with_prefix(prefix), y)]
            sibling.evaluates_to(env, x) && inner.evaluates_to(env.with_prefix(prefix), y) && out
                == binary_expr(op, x, y),
{
    let scoped = ReaderModel::Scoped { prefix, inner: Box::new(inner) };
    let whole = ReaderModel::Binary {
        op,
        order,
        left: Box::new(sibling),
        right: Box::new(scoped),
    };
    assert(scoped.outputs(env) == inner.outputs(env.with_prefix(prefix)));
    if whole.evaluates_to(env, out) {
        let (x, y) = choose|x: Expr, y: Expr|
            #![trigger sibling.outputs(env).contains(x), scoped.outputs(env).contains(y)]
            sibling.outputs(env).contains(x) && scoped.outputs(env).contains(y) && out
                == binary_expr(op, x, y);
        assert(sibling.evaluates_to(env, x) && inner.evaluates_to(env.with_prefix(prefix), y));
    }
    if exists|x: Expr, y: Expr|
        #![trigger sibling.evaluates_to(env, x), inner.evaluates_to(env.with_prefix(prefix), y)]
        sibling.evaluates_to(env, x) && inner.evaluates_to(env.with_prefix(prefix), y) && out
            == binary_expr(op, x, y) {
        let (x, y) = choose|x: Expr, y: Expr|
            #![trigger sibling.evaluates_to(env, x), inner.evaluates_to(env.with_prefix(prefix), y)]
            sibling.evaluates_to(env, x) && inner.evaluates_to(env.with_prefix(prefix), y) && out
                == binary_expr(op, x, y);
        assert(sibling.outputs(env).contains(x) && scoped.outputs(env).contains(y));
    }
}

/// A reader evaluates only where it is defined: if it may evaluate to some
/// expression in an environment, every column that it looks up there is part
/// of the schema.
pub proof fn lemma_outputs_need_definition(reader: ReaderModel, env: EnvironmentModel, out: Expr)
    requires
        reader.evaluates_to(env, out),
    ensures
        reader.defined_in(env),
    decreases reader,
{
    match reader {
        ReaderModel::Column { .. } => {},
        ReaderModel::Constant { .. } => {},
        ReaderModel::Int32 { .. } => {},
        ReaderModel::Scoped { prefix, inner } => {
            lemma_outputs_need_definition(*inner, env.with_prefix(prefix), out);
        },
        ReaderModel::Unary { op, inner } => {
            let x = choose|x: Expr| #[trigger] inner.outputs(env).contains(x);
            lemma_outputs_need_definition(*inner, env, x);
        },
        ReaderModel::Binary { op, order, left, right } => {
            let (x, y) = choose|x: Expr, y: Expr|
                #![trigger left.outputs(env).contains(x), right.outputs(env).contains(y)]
                left.outputs(env).contains(x) && right.outputs(env).contains(y);
            lemma_outputs_need_definition(*left, env, x);
            lemma_outputs_need_definition(*right, env, y);
        },
        ReaderModel::Alias { inner, name } => {
            let x = choose|x: Expr| #[trigger] inner.outputs(env).contains(x);
            lemma_outputs_need_definition(*inner, env, x);
        },
        ReaderModel::Computed { .. } => {},
        ReaderModel::Lift1 { relation, arg } => {
            let x = choose|x: Expr| #[trigger] arg.outputs(env).contains(x);
            lemma_outputs_need_definition(*arg, env, x);
        },
        ReaderModel::Lift2 { relation, first, second } => {
            let (x, y) = choose|x: Expr, y: Expr|
                #![trigger first.outputs(env).contains(x), second.outputs(env).contains(y)]
                first.outputs(env).contains(x) && second.outputs(env).contains(y);
            lemma_outputs_need_definition(*first, env, x);
            lemma_outputs_need_definition(*second, env, y);
        },
        ReaderModel::Lift3 { relation, first, second, third } => {
            let (x, y, z) = choose|x: Expr, y: Expr, z: Expr|
                #![trigger first.outputs(env).contains(x), second.outputs(env).contains(y), third.outputs(env).contains(z)]
                first.outputs(env).contains(x) && second.outputs(env).contains(y)
                    && third.outputs(env).contains(z);
            lemma_outputs_need_definition(*first, env, x);
            lemma_outputs_need_definition(*second, env, y);
            lemma_outputs_need_definition(*third, env, z);
        },
        ReaderModel::Series3 { first, second, third, .. } => {
            let (x, y, z) = choose|x: Expr, y: Expr, z: Expr|
                #![trigger first.outputs(env).contains(x), second.outputs(env).contains(y), third.outputs(env).contains(z)]
                first.outputs(env).contains(x) && second.outputs(env).contains(y)
                    && third.outputs(env).contains(z);
            lemma_outputs_need_definition(*first, env, x);
            lemma_outputs_need_definition(*second, env, y);
            lemma_outputs_need_definition(*third, env, z);
        },
    }
}

/// Evaluation is referentially transparent: a reader whose parts each yield
/// one expression only evaluates, in one environment, to one expression only.
/// Two runs in the same environment give the same expression.
pub proof fn lemma_evaluation_is_repeatable(
    reader: ReaderModel,
    env: EnvironmentModel,
    first: Expr,
    second: Expr,
)
    requires
        reader.deterministic(),
        reader.evaluates_to(env, first),
        reader.evaluates_to(env, second),
    ensures
        first == second,
    decreases reader,
{
    match reader {
        ReaderModel::Column { .. } => {},
        ReaderModel::Constant { .. } => {},
        ReaderModel::Int32 { .. } => {},
        ReaderModel::Scoped { prefix, inner } => {
            lemma_evaluation_is_repeatable(*inner, env.with_prefix(prefix), first, second);
        },
        ReaderModel::Unary { op, inner } => {
            let operands = inner.outputs(env);
            let x = choose|x: Expr| #[trigger]
                operands.contains(x) && first == crate::reader::unary_expr(op, x);
            let y = choose|y: Expr| #[trigger]
                operands.contains(y) && second == crate::reader::unary_expr(op, y);
            lemma_evaluation_is_repeatable(*inner, env, x, y);
        },
        ReaderModel::Binary { op, order, left, right } => {
            let lefts = left.outputs(env);
            let rights = right.outputs(env);
            let (x1, y1) = choose|x: Expr, y: Expr|
                #![trigger lefts.contains(x), rights.contains(y)]
                lefts.contains(x) && rights.contains(y) && first == binary_expr(op, x, y);
            let (x2, y2) = choose|x: Expr, y: Expr|
                #![trigger lefts.contains(x), rights.contains(y)]
                lefts.contains(x) && rights.contains(y) && second == binary_expr(op, x, y);
            lemma_evaluation_is_repeatable(*left, env, x1, x2);
            lemma_evaluation_is_repeatable(*right, env, y1, y2);
        },
        ReaderModel::Alias { inner, name } => {
            let operands = inner.outputs(env);
            let x = choose|x: Expr| #[trigger]
                operands.contains(x) && first == crate::engine::alias_expr(x, name);
            let y = choose|y: Expr| #[trigger]
                operands.contains(y) && second == crate::engine::alias_expr(y, name);
            lemma_evaluation_is_repeatable(*inner, env, x, y);
        },
        ReaderModel::Computed { relation } => {
            assert(relation(env, first) && relation(env, second));
        },
        ReaderModel::Lift1 { relation, arg } => {
            let args = arg.outputs(env);
            let x = choose|x: Expr| #[trigger] args.contains(x) && relation(x, first);
            let y = choose|y: Expr| #[trigger] args.contains(y) && relation(y, second);
            lemma_evaluation_is_repeatable(*arg, env, x, y);
            assert(relation(x, first) && relation(x, second));
        },
        ReaderModel::Lift2 { relation, first: one, second: two } => {
            let firsts = one.outputs(env);
            let seconds = two.outputs(env);
            let (x1, y1) = choose|x: Expr, y: Expr|
                #![trigger firsts.contains(x), seconds.contains(y)]
                firsts.contains(x) && seconds.contains(y) && relation(x, y, first);
            let (x2, y2) = choose|x: Expr, y: Expr|
                #![trigger firsts.contains(x), seconds.contains(y)]
                firsts.contains(x) && seconds.contains(y) && relation(x, y, second);
            lemma_evaluation_is_repeatable(*one, env, x1, x2);
            lemma_evaluation_is_repeatable(*two, env, y1, y2);
            assert(relation(x1, y1, first) && relation(x1, y1, second));
        },
        ReaderModel::Lift3 { relation, first: one, second: two, third: three } => {
            let firsts = one.outputs(env);
            let seconds = two.outputs(env);
            let thirds = three.outputs(env);
            let (x1, y1, z1) = choose|x: Expr, y: Expr, z: Expr|
                #![trigger firsts.contains(x), seconds.contains(y), thirds.contains(z)]
                firsts.contains(x) && seconds.contains(y) && thirds.contains(z) && relation(
                    x,
                    y,
                    z,
                    first,
                );
            let (x2, y2, z2) = choose|x: Expr, y: Expr, z: Expr|
                #![trigger firsts.contains(x), seconds.contains(y), thirds.contains(z)]
                firsts.contains(x) && seconds.contains(y) && thirds.contains(z) && relation(
                    x,
                    y,
                    z,
                    second,
                );
            lemma_evaluation_is_repeatable(*one, env, x1, x2);
            lemma_evaluation_is_repeatable(*two, env, y1, y2);
            lemma_evaluation_is_repeatable(*three, env, z1, z2);
            assert(relation(x1, y1, z1, first) && relation(x1, y1, z1, second));
        },
        ReaderModel::Series3 { .. } => {},
    }
}

/// A literal ignores the environment: it is defined in every environment,
/// whatever the schema, and evaluates to the same literal expression in all
/// of them.
pub proof fn lemma_literal_ignores_environment(
    value: ScalarModel,
    env: EnvironmentModel,
    other: EnvironmentModel,
)
    ensures
        (ReaderModel::Constant { value }).defined_in(env),
        (ReaderModel::Constant { value }).outputs(env) == set![literal_expr(value)],
        (ReaderModel::Constant { value }).outputs(env) == (ReaderModel::Constant {
            value,
        }).outputs(other),
{
}

/// A function of the environment looks up no column: the reader around it is
/// defined in every environment, and evaluates to what the function allows
/// there.
pub proof fn lemma_projection_needs_no_schema(
    relation: spec_fn(EnvironmentModel, Expr) -> bool,
    env: EnvironmentModel,
    out: Expr,
)
    ensures
        (ReaderModel::Computed { relation }).defined_in(env),
        (ReaderModel::Computed { relation }).evaluates_to(env, out) <==> relation(env, out),
{
}

/// The first step that fails decides how a run ends, whatever steps follow:
/// a step on which the engine fails ends the run with the engine's error, and
/// a step that looks up a column that the schema lacks ends it before the
/// engine is asked.
pub proof fn lemma_first_failure_ends_run(
    steps: Seq<StepModel>,
    start: int,
    env: EnvironmentModel,
    frame: DataFrame,
    error: PolarsError,
)
    requires
        0 <= start < steps.len(),
    ensures
        steps[start].first_missing(env) is None && steps[start].may_yield(env, frame, Err(error))
            ==> ends_in(steps, start, env, frame, Ending::Failed(error)),
        steps[start].first_missing(env) is Some ==> forall|ending: Ending|
            ends_in(steps, start, env, frame, ending) ==> ending is Unresolved,
{
}

/// A step that succeeds hands its table to the step after it: the run from
/// that step on may end as the rest of the run may end on the step's table.
pub proof fn lemma_steps_run_in_order(
    steps: Seq<StepModel>,
    start: int,
    env: EnvironmentModel,
    frame: DataFrame,
    next: DataFrame,
    ending: Ending,
)
    requires
        0 <= start < steps.len(),
        steps[start].first_missing(env) is None,
        steps[start].may_yield(env, frame, Ok(next)),
        ends_in(steps, start + 1, env, next, ending),
    ensures
        ends_in(steps, start, env, frame, ending),
{
}

} // verus!
