//! Functions supplied by the caller, held behind trait objects.
//!
//! A reader may hold a function of the caller: one that transforms
//! expressions, one that computes an expression from the environment, or one
//! that the engine applies to materialized values. Each kind is a trait here.
//! A trait object is total: it can be applied to every argument. What it may
//! return is given by its `relates` predicate.

use crate::resolver::{Environment, EnvironmentModel};
use crate::scalar::{literal_expr, IntoScalar};
use core::marker::PhantomData;
use polars::prelude::{Expr, Series};
use std::sync::Arc;
use vstd::prelude::*;

verus! {

/// A function from the environment to an expression.
pub(crate) trait EnvFn: Send + Sync {
    /// Whether the function may return `output` in an environment whose model is `env`.
    spec fn relates(&self, env: EnvironmentModel, output: Expr) -> bool;

    fn apply(&self, env: &Environment) -> (output: Expr)
        ensures
            self.relates(env@, output),
    ;
}

/// A function from one expression to an expression.
pub(crate) trait ExprFn1: Send + Sync {
    /// Whether the function may return `output` on `input`.
    spec fn relates(&self, input: Expr, output: Expr) -> bool;

    fn apply(&self, input: Expr) -> (output: Expr)
        ensures
            self.relates(input, output),
    ;
}

/// A function from two expressions to an expression.
pub(crate) trait ExprFn2: Send + Sync {
    /// Whether the function may return `output` on the two inputs.
    spec fn relates(&self, first: Expr, second: Expr, output: Expr) -> bool;

    fn apply(&self, first: Expr, second: Expr) -> (output: Expr)
        ensures
            self.relates(first, second, output),
    ;
}

/// A function from three expressions to an expression.
pub(crate) trait ExprFn3: Send + Sync {
    /// Whether the function may return `output` on the three inputs.
    spec fn relates(&self, first: Expr, second: Expr, third: Expr, output: Expr) -> bool;

    fn apply(&self, first: Expr, second: Expr, third: Expr) -> (output: Expr)
        ensures
            self.relates(first, second, third, output),
    ;
}

/// A function on three columns of materialized values. The engine applies
/// it while it evaluates an expression, not while a reader runs.
pub(crate) trait SeriesFn3: Send + Sync {
    /// Whether the function may return `output` on the three columns.
    spec fn relates(&self, first: Series, second: Series, third: Series, output: Series) -> bool;

    fn apply(&self, first: Series, second: Series, third: Series) -> (output: Series)
        ensures
            self.relates(first, second, third, output),
    ;
}

/// Whether `func` may return `output` in some environment whose model is `env`.
pub open spec fn env_fn_relates<F: Fn(&Environment) -> Expr>(
    func: F,
    env: EnvironmentModel,
    output: Expr,
) -> bool {
    exists|environment: Environment|
        environment@ == env && #[trigger] call_ensures(func, (&environment,), output)
}

/// A caller's function of the environment that accepts every environment.
pub(crate) struct TotalEnvFn<F: Fn(&Environment) -> Expr + Send + Sync> {
    func: F,
}

impl<F: Fn(&Environment) -> Expr + Send + Sync> TotalEnvFn<F> {
    #[verifier::type_invariant]
    spec fn total(&self) -> bool {
        forall|env: Environment| call_requires(self.func, (&env,))
    }

    fn new(func: F) -> (total: Self)
        requires
            forall|env: Environment| call_requires(func, (&env,)),
        ensures
            forall|env: EnvironmentModel, output: Expr|
                total.relates(env, output) <==> env_fn_relates(func, env, output),
    {
        TotalEnvFn { func }
    }
}

impl<F: Fn(&Environment) -> Expr + Send + Sync> EnvFn for TotalEnvFn<F> {
    closed spec fn relates(&self, env: EnvironmentModel, output: Expr) -> bool {
        env_fn_relates(self.func, env, output)
    }

    fn apply(&self, env: &Environment) -> (output: Expr) {
        proof {
            use_type_invariant(self);
        }
        (self.func)(env)
    }
}

/// Whether `func` may return, in some environment whose model is `env`, a value
/// whose literal is `output`.
pub open spec fn projects_to<F, R>(func: F, env: EnvironmentModel, output: Expr) -> bool where
    F: Fn(&Environment) -> R,
    R: IntoScalar,
 {
    exists|environment: Environment, value: R|
        environment@ == env && #[trigger] call_ensures(func, (&environment,), value) && output
            == literal_expr(value.scalar())
}

/// A caller's function from the environment to a literal value that accepts
/// every environment. It stands for the function that lifts the value.
#[verifier::reject_recursive_types(R)]
pub(crate) struct TotalProjection<
    F: Fn(&Environment) -> R + Send + Sync,
    R: IntoScalar + Send + Sync,
> {
    func: F,
    marker: PhantomData<R>,
}

impl<F: Fn(&Environment) -> R + Send + Sync, R: IntoScalar + Send + Sync> TotalProjection<F, R> {
    #[verifier::type_invariant]
    spec fn total(&self) -> bool {
        forall|env: Environment| call_requires(self.func, (&env,))
    }

    fn new(func: F) -> (total: Self)
        requires
            forall|env: Environment| call_requires(func, (&env,)),
        ensures
            forall|env: EnvironmentModel, output: Expr|
                total.relates(env, output) <==> projects_to(func, env, output),
    {
        TotalProjection { func, marker: PhantomData }
    }
}

impl<F: Fn(&Environment) -> R + Send + Sync, R: IntoScalar + Send + Sync> EnvFn for TotalProjection<
    F,
    R,
> {
    closed spec fn relates(&self, env: EnvironmentModel, output: Expr) -> bool {
        projects_to(self.func, env, output)
    }

    fn apply(&self, env: &Environment) -> (output: Expr) {
        proof {
            use_type_invariant(self);
        }
        let value = (self.func)(env);
        let ghost projected = value;
        let output = value.into_scalar().lift();
        assert(call_ensures(self.func, (env,), projected) && output == literal_expr(
            projected.scalar(),
        ));
        output
    }
}

/// A caller's function of one expression that accepts every expression.
pub(crate) struct TotalExprFn1<F: Fn(Expr) -> Expr + Send + Sync> {
    func: F,
}

impl<F: Fn(Expr) -> Expr + Send + Sync> TotalExprFn1<F> {
    #[verifier::type_invariant]
    spec fn total(&self) -> bool {
        forall|input: Expr| call_requires(self.func, (input,))
    }

    fn new(func: F) -> (total: Self)
        requires
            forall|input: Expr| call_requires(func, (input,)),
        ensures
            forall|input: Expr, output: Expr|
                total.relates(input, output) <==> call_ensures(func, (input,), output),
    {
        TotalExprFn1 { func }
    }
}

impl<F: Fn(Expr) -> Expr + Send + Sync> ExprFn1 for TotalExprFn1<F> {
    closed spec fn relates(&self, input: Expr, output: Expr) -> bool {
        call_ensures(self.func, (input,), output)
    }

    fn apply(&self, input: Expr) -> (output: Expr) {
        proof {
            use_type_invariant(self);
        }
        (self.func)(input)
    }
}

/// A caller's function of two expressions that accepts every pair.
pub(crate) struct TotalExprFn2<F: Fn(Expr, Expr) -> Expr + Send + Sync> {
    func: F,
}

impl<F: Fn(Expr, Expr) -> Expr + Send + Sync> TotalExprFn2<F> {
    #[verifier::type_invariant]
    spec fn total(&self) -> bool {
        forall|first: Expr, second: Expr| call_requires(self.func, (first, second))
    }

    fn new(func: F) -> (total: Self)
        requires
            forall|first: Expr, second: Expr| call_requires(func, (first, second)),
        ensures
            forall|first: Expr, second: Expr, output: Expr|
                total.relates(first, second, output) <==> call_ensures(
                    func,
                    (first, second),
                    output,
                ),
    {
        TotalExprFn2 { func }
    }
}

impl<F: Fn(Expr, Expr) -> Expr + Send + Sync> ExprFn2 for TotalExprFn2<F> {
    closed spec fn relates(&self, first: Expr, second: Expr, output: Expr) -> bool {
        call_ensures(self.func, (first, second), output)
    }

    fn apply(&self, first: Expr, second: Expr) -> (output: Expr) {
        proof {
            use_type_invariant(self);
        }
        (self.func)(first, second)
    }
}

/// A caller's function of three expressions that accepts every triple.
pub(crate) struct TotalExprFn3<F: Fn(Expr, Expr, Expr) -> Expr + Send + Sync> {
    func: F,
}

impl<F: Fn(Expr, Expr, Expr) -> Expr + Send + Sync> TotalExprFn3<F> {
    #[verifier::type_invariant]
    spec fn total(&self) -> bool {
        forall|first: Expr, second: Expr, third: Expr|
            call_requires(self.func, (first, second, third))
    }

    fn new(func: F) -> (total: Self)
        requires
            forall|first: Expr, second: Expr, third: Expr|
                call_requires(func, (first, second, third)),
        ensures
            forall|first: Expr, second: Expr, third: Expr, output: Expr|
                total.relates(first, second, third, output) <==> call_ensures(
                    func,
                    (first, second, third),
                    output,
                ),
    {
        TotalExprFn3 { func }
    }
}

impl<F: Fn(Expr, Expr, Expr) -> Expr + Send + Sync> ExprFn3 for TotalExprFn3<F> {
    closed spec fn relates(&self, first: Expr, second: Expr, third: Expr, output: Expr) -> bool {
        call_ensures(self.func, (first, second, third), output)
    }

    fn apply(&self, first: Expr, second: Expr, third: Expr) -> (output: Expr) {
        proof {
            use_type_invariant(self);
        }
        (self.func)(first, second, third)
    }
}

/// A caller's function of three columns of values that accepts every triple.
pub(crate) struct TotalSeriesFn3<F: Fn(Series, Series, Series) -> Series + Send + Sync> {
    func: F,
}

impl<F: Fn(Series, Series, Series) -> Series + Send + Sync> TotalSeriesFn3<F> {
    #[verifier::type_invariant]
    spec fn total(&self) -> bool {
        forall|first: Series, second: Series, third: Series|
            call_requires(self.func, (first, second, third))
    }

    fn new(func: F) -> (total: Self)
        requires
            forall|first: Series, second: Series, third: Series|
                call_requires(func, (first, second, third)),
        ensures
            forall|first: Series, second: Series, third: Series, output: Series|
                total.relates(first, second, third, output) <==> call_ensures(
                    func,
                    (first, second, third),
                    output,
                ),
    {
        TotalSeriesFn3 { func }
    }
}

impl<F: Fn(Series, Series, Series) -> Series + Send + Sync> SeriesFn3 for TotalSeriesFn3<F> {
    closed spec fn relates(
        &self,
        first: Series,
        second: Series,
        third: Series,
        output: Series,
    ) -> bool {
        call_ensures(self.func, (first, second, third), output)
    }

    fn apply(&self, first: Series, second: Series, third: Series) -> (output: Series) {
        proof {
            use_type_invariant(self);
        }
        (self.func)(first, second, third)
    }
}

/// Holds a function of the environment as a trait object.
pub(crate) fn hold_env_fn<F>(func: F) -> (held: Arc<Box<dyn EnvFn>>) where
    F: Fn(&Environment) -> Expr + Send + Sync + 'static,

    requires
        forall|env: Environment| call_requires(func, (&env,)),
    ensures
        forall|env: EnvironmentModel, output: Expr|
            #![trigger held.relates(env, output)]
            #![trigger env_fn_relates(func, env, output)]
            held.relates(env, output) <==> env_fn_relates(func, env, output),
{
    let total = TotalEnvFn::new(func);
    let boxed: Box<dyn EnvFn> = Box::new(total);
    assert(forall|env: EnvironmentModel, output: Expr|
        boxed.relates(env, output) == total.relates(env, output));
    let held = Arc::new(boxed);
    assert(forall|env: EnvironmentModel, output: Expr|
        held.relates(env, output) == boxed.relates(env, output));
    held
}

/// Holds a function from the environment to a literal value as the trait
/// object of the function that lifts the value.
pub(crate) fn hold_projection<F, R>(func: F) -> (held: Arc<Box<dyn EnvFn>>) where
    F: Fn(&Environment) -> R + Send + Sync + 'static,
    R: IntoScalar + Send + Sync + 'static,

    requires
        forall|env: Environment| call_requires(func, (&env,)),
    ensures
        forall|env: EnvironmentModel, output: Expr|
            #![trigger held.relates(env, output)]
            #![trigger projects_to(func, env, output)]
            held.relates(env, output) <==> projects_to(func, env, output),
{
    let total = TotalProjection::new(func);
    let boxed: Box<dyn EnvFn> = Box::new(total);
    assert(forall|env: EnvironmentModel, output: Expr|
        boxed.relates(env, output) == total.relates(env, output));
    let held = Arc::new(boxed);
    assert(forall|env: EnvironmentModel, output: Expr|
        held.relates(env, output) == boxed.relates(env, output));
    held
}

/// Holds a function of one expression as a trait object.
pub(crate) fn hold_expr_fn1<F>(func: F) -> (held: Arc<Box<dyn ExprFn1>>) where
    F: Fn(Expr) -> Expr + Send + Sync + 'static,

    requires
        forall|input: Expr| call_requires(func, (input,)),
    ensures
        forall|input: Expr, output: Expr|
            #![trigger held.relates(input, output)]
            #![trigger call_ensures(func, (input,), output)]
            held.relates(input, output) <==> call_ensures(func, (input,), output),
{
    let total = TotalExprFn1::new(func);
    let boxed: Box<dyn ExprFn1> = Box::new(total);
    assert(forall|input: Expr, output: Expr|
        boxed.relates(input, output) == total.relates(input, output));
    let held = Arc::new(boxed);
    assert(forall|input: Expr, output: Expr|
        held.relates(input, output) == boxed.relates(input, output));
    held
}

/// Holds a function of two expressions as a trait object.
pub(crate) fn hold_expr_fn2<F>(func: F) -> (held: Arc<Box<dyn ExprFn2>>) where
    F: Fn(Expr, Expr) -> Expr + Send + Sync + 'static,

    requires
        forall|first: Expr, second: Expr| call_requires(func, (first, second)),
    ensures
        forall|first: Expr, second: Expr, output: Expr|
            #![trigger held.relates(first, second, output)]
            #![trigger call_ensures(func, (first, second), output)]
            held.relates(first, second, output) <==> call_ensures(func, (first, second), output),
{
    let total = TotalExprFn2::new(func);
    let boxed: Box<dyn ExprFn2> = Box::new(total);
    assert(forall|first: Expr, second: Expr, output: Expr|
        boxed.relates(first, second, output) == total.relates(first, second, output));
    let held = Arc::new(boxed);
    assert(forall|first: Expr, second: Expr, output: Expr|
        held.relates(first, second, output) == boxed.relates(first, second, output));
    held
}

/// Holds a function of three expressions as a trait object.
pub(crate) fn hold_expr_fn3<F>(func: F) -> (held: Arc<Box<dyn ExprFn3>>) where
    F: Fn(Expr, Expr, Expr) -> Expr + Send + Sync + 'static,

    requires
        forall|first: Expr, second: Expr, third: Expr|
            call_requires(func, (first, second, third)),
    ensures
        forall|first: Expr, second: Expr, third: Expr, output: Expr|
            #![trigger held.relates(first, second, third, output)]
            #![trigger call_ensures(func, (first, second, third), output)]
            held.relates(first, second, third, output) <==> call_ensures(
                func,
                (first, second, third),
                output,
            ),
{
    let total = TotalExprFn3::new(func);
    let boxed: Box<dyn ExprFn3> = Box::new(total);
    assert(forall|first: Expr, second: Expr, third: Expr, output: Expr|
        boxed.relates(first, second, third, output) == total.relates(
            first,
            second,
            third,
            output,
        ));
    let held = Arc::new(boxed);
    assert(forall|first: Expr, second: Expr, third: Expr, output: Expr|
        held.relates(first, second, third, output) == boxed.relates(
            first,
            second,
            third,
            output,
        ));
    held
}

/// Holds a function of three columns of values as a trait object.
pub(crate) fn hold_series_fn3<F>(func: F) -> (held: Arc<Box<dyn SeriesFn3>>) where
    F: Fn(Series, Series, Series) -> Series + Send + Sync + 'static,

    requires
        forall|first: Series, second: Series, third: Series|
            call_requires(func, (first, second, third)),
    ensures
        forall|first: Series, second: Series, third: Series, output: Series|
            #![trigger held.relates(first, second, third, output)]
            #![trigger call_ensures(func, (first, second, third), output)]
            held.relates(first, second, third, output) <==> call_ensures(
                func,
                (first, second, third),
                output,
            ),
{
    let total = TotalSeriesFn3::new(func);
    let boxed: Box<dyn SeriesFn3> = Box::new(total);
    assert(forall|first: Series, second: Series, third: Series, output: Series|
        boxed.relates(first, second, third, output) == total.relates(
            first,
            second,
            third,
            output,
        ));
    let held = Arc::new(boxed);
    assert(forall|first: Series, second: Series, third: Series, output: Series|
        held.relates(first, second, third, output) == boxed.relates(
            first,
            second,
            third,
            output,
        ));
    held
}

} // verus!
