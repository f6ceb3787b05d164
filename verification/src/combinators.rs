//! Fields and the combinators that build readers.

use crate::lifting::{
    hold_expr_fn2, hold_expr_fn3, hold_projection, hold_series_fn3, projects_to,
};
use crate::reader::{IntoReader, Reader, ReaderModel};
use crate::resolver::{Environment, EnvironmentModel, IntoName};
use crate::scalar::IntoScalar;
use polars::prelude::{Expr, Series};
use vstd::prelude::*;

verus! {

/// A named logical column. The name is independent of any prefix.
#[derive(Debug)]
pub struct Field {
    name: String,
}

impl View for Field {
    type V = Seq<char>;

    closed spec fn view(&self) -> Seq<char> {
        self.name@
    }
}

impl Clone for Field {
    fn clone(&self) -> (copy: Self)
        ensures
            copy@ == self@,
    {
        Field { name: self.name.clone() }
    }
}

impl Field {
    /// The field named `name`.
    pub fn new<S: IntoName>(name: S) -> (field: Self)
        ensures
            field@ == name.name(),
    {
        Field { name: name.into_name() }
    }

    /// The reader of the column that the field's name stands for in the
    /// environment at hand. Building the reader looks nothing up.
    pub fn reader(&self) -> (reader: Reader)
        ensures
            reader@ == (ReaderModel::Column { name: self@ }),
    {
        Reader::column(self.name.clone())
    }
}

impl IntoReader for Field {
    open spec fn reader_model(&self) -> ReaderModel {
        ReaderModel::Column { name: self@ }
    }

    fn into_reader(self) -> (reader: Reader) {
        self.reader()
    }
}

impl<'a> IntoReader for &'a Field {
    open spec fn reader_model(&self) -> ReaderModel {
        ReaderModel::Column { name: self@ }
    }

    fn into_reader(self) -> (reader: Reader) {
        self.reader()
    }
}

/// The reader that evaluates `reader` under `prefix`, whatever prefix is in
/// force where the result stands.
pub fn use_prefix(prefix: &str, reader: Reader) -> (scoped: Reader)
    ensures
        scoped@ == (ReaderModel::Scoped { prefix: prefix@, inner: Box::new(reader@) }),
{
    Reader::scoped(String::from_str(prefix), reader)
}

/// The reader of the column that `name` stands for in the environment at hand.
pub fn get_data(name: &str) -> (reader: Reader)
    ensures
        reader@ == (ReaderModel::Column { name: name@ }),
{
    Reader::column(String::from_str(name))
}

/// The reader that applies `func` to what `reader1` and `reader2` yield in one
/// environment.
pub fn map2<F>(func: F, reader1: Reader, reader2: Reader) -> (mapped: Reader) where
    F: Fn(Expr, Expr) -> Expr + Send + Sync + 'static,

    requires
        forall|x: Expr, y: Expr| call_requires(func, (x, y)),
    ensures
        mapped@ matches ReaderModel::Lift2 { relation, first, second } && *first == reader1@
            && *second == reader2@ && forall|x: Expr, y: Expr, out: Expr|
            #![trigger relation(x, y, out)]
            #![trigger call_ensures(func, (x, y), out)]
            relation(x, y, out) <==> call_ensures(func, (x, y), out),
{
    Reader::lift2(hold_expr_fn2(func), reader1, reader2)
}

/// The reader whose value is the environment itself.
#[derive(Clone, Copy, Debug)]
pub struct EnvironmentReader {}

impl EnvironmentReader {
    /// Hands back the environment.
    pub fn run(&self, env: &Environment) -> (out: Environment)
        ensures
            out@ == env@,
    {
        env.clone()
    }
}

/// The reader that yields the environment it is run in.
pub fn ask() -> (reader: EnvironmentReader)
    ensures
        reader == (EnvironmentReader {  }),
{
    EnvironmentReader {  }
}

/// The reader that lifts what `func` computes from the environment to a
/// literal. It looks up no column.
pub fn asks<F, R>(func: F) -> (reader: Reader) where
    F: Fn(&Environment) -> R + Send + Sync + 'static,
    R: IntoScalar + Send + Sync + 'static,

    requires
        forall|env: Environment| call_requires(func, (&env,)),
    ensures
        reader@ matches ReaderModel::Computed { relation } && forall|
            env: EnvironmentModel,
            out: Expr,
        |
            #![trigger relation(env, out)]
            #![trigger projects_to(func, env, out)]
            relation(env, out) <==> projects_to(func, env, out),
{
    Reader::computed(hold_projection(func))
}

/// The reader of the literal `value`, whatever the environment.
pub fn pure<T: IntoScalar>(value: T) -> (reader: Reader)
    ensures
        reader@ == (ReaderModel::Constant { value: value.scalar() }),
{
    Reader::constant(value.into_scalar())
}

/// The reader that applies `func` to what `a` and `b` yield in one environment.
pub fn field_function2<A, B, F>(func: F, a: A, b: B) -> (reader: Reader) where
    A: IntoReader,
    B: IntoReader,
    F: Fn(Expr, Expr) -> Expr + Send + Sync + 'static,

    requires
        forall|x: Expr, y: Expr| call_requires(func, (x, y)),
    ensures
        reader@ matches ReaderModel::Lift2 { relation, first, second } && *first
            == a.reader_model() && *second == b.reader_model() && forall|
            x: Expr,
            y: Expr,
            out: Expr,
        |
            #![trigger relation(x, y, out)]
            #![trigger call_ensures(func, (x, y), out)]
            relation(x, y, out) <==> call_ensures(func, (x, y), out),
{
    Reader::lift2(hold_expr_fn2(func), a.into_reader(), b.into_reader())
}

/// The reader that applies `func` to what `a`, `b` and `c` yield in one
/// environment.
pub fn field_function3<A, B, C, F>(func: F, a: A, b: B, c: C) -> (reader: Reader) where
    A: IntoReader,
    B: IntoReader,
    C: IntoReader,
    F: Fn(Expr, Expr, Expr) -> Expr + Send + Sync + 'static,

    requires
        forall|x: Expr, y: Expr, z: Expr| call_requires(func, (x, y, z)),
    ensures
        reader@ matches ReaderModel::Lift3 { relation, first, second, third } && *first
            == a.reader_model() && *second == b.reader_model() && *third == c.reader_model()
            && forall|x: Expr, y: Expr, z: Expr, out: Expr|
            #![trigger relation(x, y, z, out)]
            #![trigger call_ensures(func, (x, y, z), out)]
            relation(x, y, z, out) <==> call_ensures(func, (x, y, z), out),
{
    Reader::lift3(hold_expr_fn3(func), a.into_reader(), b.into_reader(), c.into_reader())
}

/// The reader of an expression that has the engine apply `func` to the
/// materialized values of what `a`, `b` and `c` yield.
///
/// `func` does not run when the reader is run. It runs inside the engine, once
/// for each batch, when the engine evaluates the expression.
pub fn series_function3<A, B, C, F>(func: F, a: A, b: B, c: C) -> (reader: Reader) where
    A: IntoReader,
    B: IntoReader,
    C: IntoReader,
    F: Fn(Series, Series, Series) -> Series + Send + Sync + 'static,

    requires
        forall|x: Series, y: Series, z: Series| call_requires(func, (x, y, z)),
    ensures
        reader@ matches ReaderModel::Series3 { relation, first, second, third } && *first
            == a.reader_model() && *second == b.reader_model() && *third == c.reader_model()
            && forall|x: Series, y: Series, z: Series, out: Series|
            #![trigger relation(x, y, z, out)]
            #![trigger call_ensures(func, (x, y, z), out)]
            relation(x, y, z, out) <==> call_ensures(func, (x, y, z), out),
{
    Reader::series3(hold_series_fn3(func), a.into_reader(), b.into_reader(), c.into_reader())
}

} // verus!
