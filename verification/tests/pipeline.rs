use datadrill::{
    sample_dataframe_with_modified, series_function3, use_prefix, DataFrameOps, Environment,
    Field, FieldResolver, PipelineError, Reader,
};
use polars::prelude::DataFrame;

fn numbers() -> Reader {
    Field::new("numbers").reader()
}

fn int32s(frame: &DataFrame, column: &str) -> Vec<Option<i32>> {
    frame.column(column).unwrap().i32().unwrap().to_vec()
}

#[test]
fn select_doubles_the_numbers() {
    let out = DataFrameOps::new(sample_dataframe_with_modified())
        .select(vec![numbers() * 2])
        .run(None)
        .unwrap();
    assert_eq!(out.width(), 1);
    assert_eq!(int32s(&out, "numbers"), vec![Some(2), Some(4), Some(6)]);
}

#[test]
fn pipeline_without_steps_returns_the_table() {
    let out = DataFrameOps::new(sample_dataframe_with_modified())
        .run(None)
        .unwrap();
    assert_eq!(out, sample_dataframe_with_modified());
    let again = DataFrameOps::new(sample_dataframe_with_modified())
        .try_run(None)
        .unwrap();
    assert_eq!(again, sample_dataframe_with_modified());
}

#[test]
fn filter_keeps_the_rows_that_match() {
    let out = DataFrameOps::new(sample_dataframe_with_modified())
        .filter(numbers().gt(1i32))
        .run(None)
        .unwrap();
    assert_eq!(out.height(), 2);
    assert_eq!(int32s(&out, "numbers"), vec![Some(2), Some(3)]);
    assert_eq!(int32s(&out, "modified_numbers"), vec![Some(20), Some(30)]);
}

#[test]
fn steps_run_in_the_order_they_were_added() {
    let filtered_first = DataFrameOps::new(sample_dataframe_with_modified())
        .filter(numbers().gt(1i32))
        .select(vec![(numbers() * 10).alias("scaled")])
        .filter(Field::new("scaled").reader().lt(30i32))
        .try_run(Some(Environment::new(FieldResolver::new(vec![
            "numbers", "scaled",
        ]))))
        .unwrap();
    assert_eq!(int32s(&filtered_first, "scaled"), vec![Some(20)]);
}

#[test]
fn select_keeps_the_order_of_its_columns() {
    let out = DataFrameOps::new(sample_dataframe_with_modified())
        .select(vec![
            Field::new("modified_numbers").reader(),
            numbers(),
            (numbers() + use_prefix("modified_", numbers())).alias("both"),
        ])
        .run(None)
        .unwrap();
    assert_eq!(
        out.get_column_names_str(),
        vec!["modified_numbers", "numbers", "both"]
    );
    assert_eq!(int32s(&out, "both"), vec![Some(11), Some(22), Some(33)]);
}

#[test]
fn select_takes_fields_and_literals() {
    let out = DataFrameOps::new(sample_dataframe_with_modified())
        .select(vec![Field::new("numbers")])
        .run(None)
        .unwrap();
    assert_eq!(int32s(&out, "numbers"), vec![Some(1), Some(2), Some(3)]);
}

#[test]
fn run_uses_the_given_environment() {
    let env = Environment::new(FieldResolver::new(vec!["numbers", "modified_numbers"]))
        .with_prefix("modified_");
    let out = DataFrameOps::new(sample_dataframe_with_modified())
        .select(vec![numbers()])
        .run(Some(env))
        .unwrap();
    assert_eq!(
        int32s(&out, "modified_numbers"),
        vec![Some(10), Some(20), Some(30)]
    );
}

#[test]
fn default_environment_comes_from_the_base_table() {
    let out = DataFrameOps::new(sample_dataframe_with_modified())
        .select(vec![numbers().alias("renamed")])
        .select(vec![(Field::new("numbers").reader() + 1).alias("numbers")]);
    match out.try_run(None) {
        Err(PipelineError::Engine(_)) => {}
        other => panic!("the engine should miss the column: {:?}", other.map(|_| ())),
    }
    let unknown = DataFrameOps::new(sample_dataframe_with_modified())
        .select(vec![numbers().alias("renamed")])
        .select(vec![Field::new("renamed").reader()]);
    match unknown.try_run(None) {
        Err(PipelineError::Resolution(message)) => {
            assert_eq!(message, "renamed not in schema");
        }
        other => panic!("the schema lacks the column: {:?}", other.map(|_| ())),
    }
}

#[test]
fn unresolved_column_ends_the_run_with_its_message() {
    let result = DataFrameOps::new(sample_dataframe_with_modified())
        .filter(numbers().gt(0i32))
        .select(vec![numbers(), Field::new("missing").reader()])
        .select(vec![Field::new("later").reader()])
        .try_run(None);
    match result {
        Err(PipelineError::Resolution(message)) => {
            assert_eq!(message, "missing not in schema");
        }
        other => panic!("the schema lacks the column: {:?}", other.map(|_| ())),
    }
}

#[test]
fn engine_error_ends_the_run_unchanged() {
    let env = Environment::new(FieldResolver::new(vec!["numbers", "absent"]));
    let result = DataFrameOps::new(sample_dataframe_with_modified())
        .select(vec![Field::new("absent").reader()])
        .select(vec![numbers()])
        .run(Some(env));
    let error = result.unwrap_err();
    assert!(matches!(
        error,
        polars::prelude::PolarsError::ColumnNotFound(_)
    ));
}

#[test]
fn first_failing_step_decides() {
    let env = Environment::new(FieldResolver::new(vec!["numbers", "absent"]));
    let result = DataFrameOps::new(sample_dataframe_with_modified())
        .select(vec![Field::new("absent").reader()])
        .select(vec![Field::new("missing").reader()])
        .try_run(Some(env));
    assert!(matches!(result, Err(PipelineError::Engine(_))));
}

#[test]
fn series_function_runs_on_the_values() {
    let summed = series_function3(
        |a, b, c| {
            let first = (&a + &b).unwrap();
            (&first + &c).unwrap()
        },
        numbers(),
        use_prefix("modified_", numbers()),
        numbers(),
    );
    let out = DataFrameOps::new(sample_dataframe_with_modified())
        .select(vec![summed])
        .run(None)
        .unwrap();
    assert_eq!(int32s(&out, "numbers"), vec![Some(12), Some(24), Some(36)]);
}

#[test]
fn sample_table_has_three_rows_of_two_columns() {
    let frame = sample_dataframe_with_modified();
    assert_eq!(frame.shape(), (3, 2));
    assert_eq!(
        frame.get_column_names_str(),
        vec!["numbers", "modified_numbers"]
    );
    assert_eq!(int32s(&frame, "numbers"), vec![Some(1), Some(2), Some(3)]);
    assert_eq!(
        int32s(&frame, "modified_numbers"),
        vec![Some(10), Some(20), Some(30)]
    );
}
