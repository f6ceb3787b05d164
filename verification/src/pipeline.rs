//! Pipelines: table operations that wait for an environment.
//!
//! A [`DataFrameOps`] holds a table and a list of steps. Each step filters the
//! table by what a reader yields, or projects it onto what a list of readers
//! yield. Running the pipeline evaluates the readers of each step in one
//! environment and hands the table to the engine, step after step. The first
//! step that fails ends the run.

use crate::engine::{
    column_names, engine_column_names, engine_filter, engine_select, filter_outcome,
    select_outcome,
};
use crate::reader::{IntoReader, Reader, ReaderModel};
use crate::resolver::{
    borrowed_names_of, given_names_of, Environment, EnvironmentModel, FieldResolver, ResolverModel,
};
use polars::prelude::{DataFrame, Expr, PolarsError};
use vstd::prelude::*;

verus! {

/// Mathematical model of one step of a pipeline.
pub enum StepModel {
    /// Keep the rows on which the reader's expression holds.
    Filter { predicate: ReaderModel },
    /// Replace the columns by the readers' expressions.
    Select { columns: Seq<ReaderModel> },
}

/// The first column, in evaluation order, that one of the readers from
/// position `start` on looks up and that the schema lacks.
pub open spec fn first_missing_from(
    readers: Seq<ReaderModel>,
    start: int,
    env: EnvironmentModel,
) -> Option<Seq<char>>
    decreases readers.len() - start,
{
    if start < 0 || start >= readers.len() {
        None
    } else {
        match readers[start].first_missing(env) {
            Some(column) => Some(column),
            None => first_missing_from(readers, start + 1, env),
        }
    }
}

/// Whether `exprs` holds, position by position, an expression that the reader
/// at that position may evaluate to in `env`.
pub open spec fn all_evaluate(
    readers: Seq<ReaderModel>,
    env: EnvironmentModel,
    exprs: Seq<Expr>,
) -> bool {
    exprs.len() == readers.len() && forall|i: int|
        0 <= i < readers.len() ==> (#[trigger] readers[i]).evaluates_to(env, exprs[i])
}

impl StepModel {
    /// The first column, in evaluation order, that the step looks up and that
    /// the schema lacks.
    pub open spec fn first_missing(self, env: EnvironmentModel) -> Option<Seq<char>> {
        match self {
            StepModel::Filter { predicate } => predicate.first_missing(env),
            StepModel::Select { columns } => first_missing_from(columns, 0, env),
        }
    }

    /// Whether the step, applied to `frame` in `env`, may end in `outcome`: the
    /// engine may give `outcome` for the table and what the step's readers
    /// evaluate to.
    pub open spec fn may_yield(
        self,
        env: EnvironmentModel,
        frame: DataFrame,
        outcome: Result<DataFrame, PolarsError>,
    ) -> bool {
        match self {
            StepModel::Filter { predicate } => exists|expr: Expr|
                predicate.evaluates_to(env, expr) && #[trigger] filter_outcome(
                    frame,
                    expr,
                    outcome,
                ),
            StepModel::Select { columns } => exists|exprs: Seq<Expr>|
                all_evaluate(columns, env, exprs) && #[trigger] select_outcome(
                    frame,
                    exprs,
                    outcome,
                ),
        }
    }
}

/// How a run of a pipeline ends.
pub enum Ending {
    /// Every step succeeded; this is the last step's table.
    Table(DataFrame),
    /// A step looked up a column that the schema lacks; this is the resolver's message.
    Unresolved(Seq<char>),
    /// The engine failed on a step; this is its error, unchanged.
    Failed(PolarsError),
}

/// Whether the steps from position `start` on, applied in order to `frame` in
/// `env`, may end in `ending`.
///
/// Each step gets the table that the step before it produced. The first step
/// that fails decides the ending, and no later step is applied.
pub open spec fn ends_in(
    steps: Seq<StepModel>,
    start: int,
    env: EnvironmentModel,
    frame: DataFrame,
    ending: Ending,
) -> bool
    decreases steps.len() - start,
{
    if start < 0 || start >= steps.len() {
        ending == Ending::Table(frame)
    } else {
        match steps[start].first_missing(env) {
            Some(column) => ending == Ending::Unresolved(ResolverModel::missing(column)),
            None => exists|outcome: Result<DataFrame, PolarsError>| #[trigger]
                steps[start].may_yield(env, frame, outcome) && match outcome {
                    Ok(next) => ends_in(steps, start + 1, env, next, ending),
                    Err(error) => ending == Ending::Failed(error),
                },
        }
    }
}

/// Mathematical model of a [`DataFrameOps`]: the table and the steps, in the
/// order in which they were added.
pub struct PipelineModel {
    pub frame: DataFrame,
    pub steps: Seq<StepModel>,
}

impl PipelineModel {
    /// The environment of a run that was given none: the table's own column
    /// names as the schema, under the empty prefix.
    pub open spec fn default_environment(self) -> EnvironmentModel {
        EnvironmentModel {
            resolver: ResolverModel { schema: column_names(self.frame), prefix: Seq::empty() },
        }
    }

    /// The environment of a run: the one given, or else the default one.
    pub open spec fn environment(self, given: Option<EnvironmentModel>) -> EnvironmentModel {
        match given {
            Some(env) => env,
            None => self.default_environment(),
        }
    }

    /// Whether every reader of every step is defined in `env`.
    pub open spec fn defined_in(self, env: EnvironmentModel) -> bool {
        forall|i: int| 0 <= i < self.steps.len() ==> (#[trigger] self.steps[i]).first_missing(env)
            is None
    }

    /// Whether a run in `env` may end in `ending`.
    pub open spec fn ends_in(self, env: EnvironmentModel, ending: Ending) -> bool {
        ends_in(self.steps, 0, env, self.frame, ending)
    }
}

/// Why a run of a pipeline failed.
#[derive(Debug)]
pub enum PipelineError {
    /// A reader looked up a column that the schema lacks.
    Resolution(String),
    /// The engine's error, unchanged.
    Engine(PolarsError),
}

/// The ending that the result of a run stands for.
pub open spec fn ending_of(result: Result<DataFrame, PipelineError>) -> Ending {
    match result {
        Ok(frame) => Ending::Table(frame),
        Err(PipelineError::Resolution(message)) => Ending::Unresolved(message@),
        Err(PipelineError::Engine(error)) => Ending::Failed(error),
    }
}

/// The ending that the engine's result stands for.
pub open spec fn engine_ending_of(result: Result<DataFrame, PolarsError>) -> Ending {
    match result {
        Ok(frame) => Ending::Table(frame),
        Err(error) => Ending::Failed(error),
    }
}

/// The model of the environment that a run was given, if it was given one.
pub open spec fn given_model(given: Option<Environment>) -> Option<EnvironmentModel> {
    match given {
        Some(env) => Some(env@),
        None => None,
    }
}

/// The models of a list of readers.
pub open spec fn models_of(readers: Seq<Reader>) -> Seq<ReaderModel> {
    readers.map_values(|reader: Reader| reader@)
}

/// The models of the readers that a list of values convert to.
pub open spec fn reader_models_of<R: IntoReader>(values: Seq<R>) -> Seq<ReaderModel> {
    values.map_values(|value: R| value.reader_model())
}

/// One step of a pipeline.
enum Step {
    Filter { predicate: Reader },
    Select { columns: Vec<Reader> },
}

impl Step {
    spec fn model(self) -> StepModel {
        match self {
            Step::Filter { predicate } => StepModel::Filter { predicate: predicate@ },
            Step::Select { columns } => StepModel::Select { columns: models_of(columns@) },
        }
    }
}

/// Evaluates the readers in order, up to the first that is not defined in `env`.
fn evaluate_all(readers: &Vec<Reader>, env: &Environment) -> (outcome: Result<Vec<Expr>, String>)
    ensures
        match outcome {
            Ok(exprs) => first_missing_from(models_of(readers@), 0, env@) is None && all_evaluate(
                models_of(readers@),
                env@,
                exprs@,
            ),
            Err(message) => first_missing_from(models_of(readers@), 0, env@) matches Some(column)
                && message@ == ResolverModel::missing(column),
        },
{
    let ghost models = models_of(readers@);
    let mut exprs: Vec<Expr> = Vec::new();
    let mut i: usize = 0;
    while i < readers.len()
        invariant
            i <= readers.len(),
            models == models_of(readers@),
            exprs.len() == i,
            first_missing_from(models, 0, env@) == first_missing_from(models, i as int, env@),
            forall|j: int| 0 <= j < i ==> (#[trigger] models[j]).evaluates_to(env@, exprs@[j]),
        decreases readers.len() - i,
    {
        match readers[i].try_run(env) {
            Ok(expr) => {
                exprs.push(expr);
            },
            Err(message) => {
                return Err(message);
            },
        }
        i += 1;
    }
    Ok(exprs)
}

/// A table and the steps to apply to it.
pub struct DataFrameOps {
    df: DataFrame,
    ops: Vec<Step>,
}

impl View for DataFrameOps {
    type V = PipelineModel;

    closed spec fn view(&self) -> PipelineModel {
        PipelineModel { frame: self.df, steps: self.ops@.map_values(|step: Step| step.model()) }
    }
}

impl DataFrameOps {
    /// The pipeline on `df` without steps.
    pub fn new(df: DataFrame) -> (pipeline: Self)
        ensures
            pipeline@ == (PipelineModel { frame: df, steps: Seq::empty() }),
    {
        let pipeline = DataFrameOps { df, ops: Vec::new() };
        assert(pipeline@.steps =~= Seq::empty());
        pipeline
    }

    /// Adds a step that keeps the rows on which `predicate` holds.
    pub fn filter<R: IntoReader>(self, predicate: R) -> (pipeline: Self)
        ensures
            pipeline@ == (PipelineModel {
                frame: self@.frame,
                steps: self@.steps.push(StepModel::Filter { predicate: predicate.reader_model() }),
            }),
    {
        let mut pipeline = self;
        pipeline.ops.push(Step::Filter { predicate: predicate.into_reader() });
        assert(pipeline@.steps =~= self@.steps.push(
            StepModel::Filter { predicate: predicate.reader_model() },
        ));
        pipeline
    }

    /// Adds a step that replaces the columns by `exprs`, in that order.
    pub fn select<R: IntoReader>(self, exprs: Vec<R>) -> (pipeline: Self)
        ensures
            pipeline@ == (PipelineModel {
                frame: self@.frame,
                steps: self@.steps.push(StepModel::Select { columns: reader_models_of(exprs@) }),
            }),
    {
        let ghost wanted = reader_models_of(exprs@);
        let mut rest = exprs;
        let mut columns: Vec<Reader> = Vec::new();
        while rest.len() > 0
            invariant
                columns.len() + rest.len() == wanted.len(),
                forall|j: int| 0 <= j < columns.len() ==> columns@[j]@ == wanted[j],
                forall|j: int|
                    0 <= j < rest.len() ==> (#[trigger] rest@[j]).reader_model() == wanted[columns.len()
                        + j],
            decreases rest.len(),
        {
            let value = rest.remove(0);
            columns.push(value.into_reader());
        }
        assert(models_of(columns@) =~= wanted);
        let mut pipeline = self;
        pipeline.ops.push(Step::Select { columns });
        assert(pipeline@.steps =~= self@.steps.push(StepModel::Select { columns: wanted }));
        pipeline
    }

    /// Runs the steps in order, each on the table that the step before it
    /// produced and all in one environment: `env`, or else the environment made
    /// of the table's own column names under the empty prefix.
    ///
    /// The result follows the run to its ending. A step whose reader looks up
    /// a column that the schema lacks ends the run with the resolver's
    /// message; a step on which the engine fails ends it with the engine's
    /// error.
    pub fn try_run(self, env: Option<Environment>) -> (result: Result<DataFrame, PipelineError>)
        ensures
            self@.ends_in(self@.environment(given_model(env)), ending_of(result)),
    {
        let ghost context = self@.environment(given_model(env));
        let ghost steps = self@.steps;
        let ghost start = self@.frame;
        let environment = match env {
            Some(given) => given,
            None => {
                let names = engine_column_names(&self.df);
                assert(given_names_of(names@) =~= borrowed_names_of(names@));
                Environment::new(FieldResolver::new(names))
            },
        };
        let ops = self.ops;
        let mut frame = self.df;
        let mut i: usize = 0;
        while i < ops.len()
            invariant
                i <= ops.len(),
                environment@ == context,
                context == self@.environment(given_model(env)),
                steps == self@.steps,
                start == self@.frame,
                steps == ops@.map_values(|step: Step| step.model()),
                forall|ending: Ending|
                    ends_in(steps, i as int, context, frame, ending) ==> ends_in(
                        steps,
                        0,
                        context,
                        start,
                        ending,
                    ),
            ensures
                i == ops.len(),
                ends_in(steps, 0, context, start, Ending::Table(frame)),
            decreases ops.len() - i,
        {
            let ghost before = frame;
            let step = &ops[i];
            assert(steps[i as int] == step.model());
            let outcome = match step {
                Step::Filter { predicate } => match predicate.try_run(&environment) {
                    Ok(expr) => engine_filter(frame, expr),
                    Err(message) => {
                        assert(ends_in(
                            steps,
                            i as int,
                            context,
                            before,
                            Ending::Unresolved(message@),
                        ));
                        return Err(PipelineError::Resolution(message));
                    },
                },
                Step::Select { columns } => match evaluate_all(columns, &environment) {
                    Ok(exprs) => engine_select(frame, exprs),
                    Err(message) => {
                        assert(ends_in(
                            steps,
                            i as int,
                            context,
                            before,
                            Ending::Unresolved(message@),
                        ));
                        return Err(PipelineError::Resolution(message));
                    },
                },
            };
            assert(steps[i as int].first_missing(context) is None);
            assert(steps[i as int].may_yield(context, before, outcome));
            match outcome {
                Ok(next) => {
                    assert forall|ending: Ending|
                        ends_in(steps, i as int + 1, context, next, ending) implies ends_in(
                        steps,
                        0,
                        context,
                        start,
                        ending,
                    ) by {
                        assert(ends_in(steps, i as int, context, before, ending));
                    }
                    frame = next;
                },
                Err(error) => {
                    assert(ends_in(steps, i as int, context, before, Ending::Failed(error)));
                    return Err(PipelineError::Engine(error));
                },
            }
            i += 1;
        }
        Ok(frame)
    }

    /// Runs the steps as [`DataFrameOps::try_run`] does, for a pipeline whose
    /// readers are all defined in the environment of the run. The only failure
    /// left is the engine's, and its error comes back unchanged.
    pub fn run(self, env: Option<Environment>) -> (result: Result<DataFrame, PolarsError>)
        requires
            self@.defined_in(self@.environment(given_model(env))),
        ensures
            self@.ends_in(self@.environment(given_model(env)), engine_ending_of(result)),
    {
        let ghost pipeline = self@;
        let ghost context = self@.environment(given_model(env));
        match self.try_run(env) {
            Ok(frame) => Ok(frame),
            Err(PipelineError::Engine(error)) => Err(error),
            Err(PipelineError::Resolution(message)) => {
                proof {
                    lemma_defined_steps_resolve(
                        pipeline.steps,
                        0,
                        context,
                        pipeline.frame,
                        Ending::Unresolved(message@),
                    );
                }
                vstd::pervasive::unreached()
            },
        }
    }
}

/// Where every step is defined in `env`, no run ends on a column that the
/// schema lacks.
pub proof fn lemma_defined_steps_resolve(
    steps: Seq<StepModel>,
    start: int,
    env: EnvironmentModel,
    frame: DataFrame,
    ending: Ending,
)
    requires
        forall|i: int| 0 <= i < steps.len() ==> (#[trigger] steps[i]).first_missing(env) is None,
        ends_in(steps, start, env, frame, ending),
    ensures
        !(ending is Unresolved),
    decreases steps.len() - start,
{
    if 0 <= start < steps.len() {
        assert(steps[start].first_missing(env) is None);
        let outcome = choose|outcome: Result<DataFrame, PolarsError>| #[trigger]
            steps[start].may_yield(env, frame, outcome) && match outcome {
                Ok(next) => ends_in(steps, start + 1, env, next, ending),
                Err(error) => ending == Ending::Failed(error),
            };
        match outcome {
            Ok(next) => {
                lemma_defined_steps_resolve(steps, start + 1, env, next, ending);
            },
            Err(error) => {},
        }
    }
}

} // verus!
