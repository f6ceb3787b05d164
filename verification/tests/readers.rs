use datadrill::{
    ask, asks, field_function2, field_function3, get_data, map2, pure, series_function3,
    use_prefix, Environment, Field, FieldResolver, IntoReader, Reader, Scalar,
};
use polars::prelude::{col, lit, DataType, Expr};

fn environment() -> Environment {
    Environment::new(FieldResolver::new(vec!["numbers", "modified_numbers"]))
}

fn numbers() -> Reader {
    Field::new("numbers").reader()
}

fn modified() -> Reader {
    Field::new("modified_numbers").reader()
}

fn int32(value: i32) -> Expr {
    lit(value).cast(DataType::Int32)
}

#[test]
fn field_reads_the_column_its_name_stands_for() {
    let env = environment();
    assert_eq!(numbers().run(&env), col("numbers"));
    assert_eq!(
        numbers().run(&env.with_prefix("modified_")),
        col("modified_numbers")
    );
    assert_eq!(get_data("numbers").run(&env), col("numbers"));
    assert_eq!(
        get_data("numbers").run(&env.with_prefix("modified_")),
        col("modified_numbers")
    );
}

#[test]
fn field_name_may_be_an_owned_string() {
    let env = environment();
    let field = Field::new("numbers".to_string());
    assert_eq!(field.reader().run(&env), col("numbers"));
}

#[test]
fn building_a_reader_looks_nothing_up() {
    let missing = Field::new("missing").reader() + get_data("also_missing");
    let env = environment();
    assert!(!missing.is_defined_in(&env));
    assert_eq!(
        missing.try_run(&env),
        Err("missing not in schema".to_string())
    );
}

#[test]
fn try_run_reports_the_attempted_column_under_the_prefix() {
    let env = environment().with_prefix("modified_");
    assert_eq!(
        Field::new("missing").reader().try_run(&env),
        Err("modified_missing not in schema".to_string())
    );
    assert_eq!(
        modified().try_run(&env),
        Err("modified_modified_numbers not in schema".to_string())
    );
    assert_eq!(numbers().try_run(&env), Ok(col("modified_numbers")));
}

#[test]
fn is_defined_in_follows_resolution() {
    let env = environment();
    assert!(numbers().is_defined_in(&env));
    assert!((numbers() + modified()).is_defined_in(&env));
    assert!(!(numbers() + modified()).is_defined_in(&env.with_prefix("modified_")));
    assert!(use_prefix("modified_", numbers()).is_defined_in(&env.with_prefix("nowhere_")));
    assert!(pure(1i32).is_defined_in(&Environment::new(FieldResolver::new(Vec::<&str>::new()))));
}

#[test]
fn first_missing_names_the_column_without_evaluating() {
    let env = environment();
    assert_eq!(numbers().first_missing(&env), None);
    assert_eq!(
        (numbers() + Field::new("absent").reader()).first_missing(&env),
        Some("absent".to_string())
    );
    assert_eq!(
        use_prefix("modified_", Field::new("absent").reader()).first_missing(&env),
        Some("modified_absent".to_string())
    );
    assert_eq!(
        Field::new("left").reader().lt(Field::new("right")).first_missing(&env),
        Some("right".to_string())
    );
    let never_called = Reader::new(|_env: &Environment| -> Expr { unreachable!() });
    assert_eq!((never_called + numbers()).first_missing(&env), None);
}

#[test]
fn operators_report_the_left_operand_first() {
    let env = environment();
    let both_missing = Field::new("left").reader() + Field::new("right").reader();
    assert_eq!(
        both_missing.try_run(&env),
        Err("left not in schema".to_string())
    );
    let right_missing = numbers() * Field::new("right").reader();
    assert_eq!(
        right_missing.try_run(&env),
        Err("right not in schema".to_string())
    );
}

#[test]
fn comparisons_report_the_right_operand_first() {
    let env = environment();
    let both_missing = Field::new("left").reader().gt(Field::new("right"));
    assert_eq!(
        both_missing.try_run(&env),
        Err("right not in schema".to_string())
    );
    let left_missing = Field::new("left").reader().pow(numbers());
    assert_eq!(
        left_missing.try_run(&env),
        Err("left not in schema".to_string())
    );
}

#[test]
fn use_prefix_binds_its_operand_only() {
    let env = environment();
    let mixed = numbers() + use_prefix("modified_", numbers());
    assert_eq!(mixed.run(&env), col("numbers") + col("modified_numbers"));
    let swapped = use_prefix("modified_", numbers()) - numbers();
    assert_eq!(swapped.run(&env), col("modified_numbers") - col("numbers"));
}

#[test]
fn use_prefix_ignores_the_ambient_prefix() {
    let env = environment();
    let scoped = use_prefix("modified_", numbers());
    assert_eq!(scoped.run(&env), col("modified_numbers"));
    assert_eq!(
        scoped.run(&env.with_prefix("nowhere_")),
        col("modified_numbers")
    );
    assert_eq!(
        scoped.run(&env.with_prefix("modified_")),
        col("modified_numbers")
    );
    let cleared = use_prefix("", numbers());
    assert_eq!(cleared.run(&env.with_prefix("modified_")), col("numbers"));
}

#[test]
fn nested_overrides_take_the_innermost() {
    let env = environment();
    let nested = use_prefix("nowhere_", use_prefix("modified_", numbers()));
    assert_eq!(nested.run(&env), col("modified_numbers"));
    let outer_only = use_prefix("modified_", numbers() + use_prefix("", numbers()));
    assert_eq!(
        outer_only.run(&env),
        col("modified_numbers") + col("numbers")
    );
}

#[test]
fn running_twice_gives_the_same_expression() {
    let env = environment();
    let composed = ((numbers() + modified()) * 2).alias("total");
    let first = composed.run(&env);
    let second = composed.run(&env);
    assert_eq!(first, second);
    assert_eq!(
        first,
        ((col("numbers") + col("modified_numbers")) * int32(2)).alias("total")
    );
}

#[test]
fn one_reader_follows_each_environment() {
    let plain = environment();
    let prefixed = plain.with_prefix("modified_");
    let doubled = numbers() * 2;
    assert_eq!(doubled.run(&plain), col("numbers") * int32(2));
    assert_eq!(doubled.run(&prefixed), col("modified_numbers") * int32(2));
    assert_eq!(doubled.run(&plain), col("numbers") * int32(2));
}

#[test]
fn a_clone_reads_as_the_reader_does() {
    let env = environment();
    let reader = numbers().gt(1i32);
    let copy = reader.clone();
    assert_eq!(reader.run(&env), copy.run(&env));
    assert_eq!((reader + copy).run(&env), col("numbers").gt(lit(1i32)) + col("numbers").gt(lit(1i32)));
}

#[test]
fn pure_ignores_the_environment() {
    let nothing = Environment::new(FieldResolver::new(Vec::<&str>::new()));
    let env = environment().with_prefix("nowhere_");
    assert_eq!(pure(7i32).run(&nothing), lit(7i32));
    assert_eq!(pure(7i32).run(&env), lit(7i32));
    assert_eq!(pure(7i32).try_run(&nothing), Ok(lit(7i32)));
}

#[test]
fn literals_lift_by_their_type() {
    let env = environment();
    assert_eq!(pure(3i32).run(&env), lit(3i32));
    assert_eq!(pure(-4i64).run(&env), lit(-4i64));
    assert_eq!(pure(true).run(&env), lit(true));
    assert_eq!(pure(false).run(&env), lit(false));
    assert_eq!(pure("text").run(&env), lit("text"));
    assert_eq!(pure("text".to_string()).run(&env), lit("text".to_string()));
    assert_eq!(pure(Scalar::Int32(5)).run(&env), lit(5i32));
    assert_ne!(pure(3i32).run(&env), lit(4i32));
    assert_ne!(pure(true).run(&env), lit(false));
    assert_ne!(pure("text").run(&env), lit("other"));
}

#[test]
fn into_reader_unifies_readers_fields_and_literals() {
    let env = environment();
    let field = Field::new("numbers");
    assert_eq!((&field).into_reader().run(&env), col("numbers"));
    assert_eq!(field.clone().into_reader().run(&env), col("numbers"));
    assert_eq!(numbers().into_reader().run(&env), col("numbers"));
    assert_eq!(2i32.into_reader().run(&env), lit(2i32));
    assert_eq!("two".into_reader().run(&env), lit("two"));
    assert_eq!(numbers().gt(&field).run(&env), col("numbers").gt(col("numbers")));
    assert_eq!(numbers().gt(field).run(&env), col("numbers").gt(col("numbers")));
}

#[test]
fn ask_hands_back_each_environment() {
    let plain = environment();
    let prefixed = plain.with_prefix("modified_");
    assert_eq!(ask().run(&plain), plain);
    assert_eq!(ask().run(&prefixed), prefixed);
    assert_ne!(ask().run(&prefixed), plain);
}

#[test]
fn asks_lifts_what_it_projects() {
    let prefixed = environment().with_prefix("modified_");
    let empty = Environment::new(FieldResolver::new(Vec::<&str>::new()));
    let prefix = asks(|env: &Environment| env.resolver().prefix().to_string());
    assert_eq!(prefix.run(&prefixed), lit("modified_"));
    assert_eq!(prefix.run(&empty), lit(""));
    let length = asks(|env: &Environment| env.resolver().prefix().len() as i32);
    assert_eq!(length.run(&prefixed), lit(9i32));
    let known = asks(|env: &Environment| env.resolver().resolve("numbers").is_ok());
    assert_eq!(known.run(&empty), lit(false));
    assert_eq!(known.run(&environment()), lit(true));
}

#[test]
fn new_wraps_a_function_of_the_environment() {
    let reader = Reader::new(|env: &Environment| col(env.resolver().prefix()));
    assert_eq!(
        reader.run(&environment().with_prefix("modified_numbers")),
        col("modified_numbers")
    );
    assert_eq!(
        (reader + 1).run(&environment().with_prefix("numbers")),
        col("numbers") + int32(1)
    );
}

#[test]
fn arithmetic_operators_build_the_engines_expressions() {
    let env = environment();
    assert_eq!((numbers() + modified()).run(&env), col("numbers") + col("modified_numbers"));
    assert_eq!((numbers() - modified()).run(&env), col("numbers") - col("modified_numbers"));
    assert_eq!((numbers() * modified()).run(&env), col("numbers") * col("modified_numbers"));
    assert_eq!((numbers() / modified()).run(&env), col("numbers") / col("modified_numbers"));
    assert_eq!((numbers() % modified()).run(&env), col("numbers") % col("modified_numbers"));
    assert_ne!((numbers() - modified()).run(&env), col("modified_numbers") - col("numbers"));
    assert_ne!((numbers() + modified()).run(&env), col("numbers") - col("modified_numbers"));
}

#[test]
fn bitwise_operators_build_the_engines_expressions() {
    let env = environment();
    assert_eq!((numbers() & modified()).run(&env), col("numbers").and(col("modified_numbers")));
    assert_eq!((numbers() | modified()).run(&env), col("numbers").or(col("modified_numbers")));
    assert_eq!((numbers() ^ modified()).run(&env), col("numbers").xor(col("modified_numbers")));
    assert_ne!((numbers() & modified()).run(&env), col("numbers").or(col("modified_numbers")));
}

#[test]
fn unary_operators_build_the_engines_expressions() {
    let env = environment();
    assert_eq!((-numbers()).run(&env), -col("numbers"));
    assert_eq!((!numbers()).run(&env), col("numbers").not());
    assert_ne!((-numbers()).run(&env), col("numbers"));
    assert_ne!((!numbers()).run(&env), -col("numbers"));
}

#[test]
fn scalar_operands_are_cast_to_int32() {
    let env = environment();
    assert_eq!((numbers() + 1).run(&env), col("numbers") + int32(1));
    assert_eq!((numbers() - 1).run(&env), col("numbers") - int32(1));
    assert_eq!((numbers() * 2).run(&env), col("numbers") * int32(2));
    assert_eq!((numbers() / 2).run(&env), col("numbers") / int32(2));
    assert_eq!((numbers() % 2).run(&env), col("numbers") % int32(2));
    assert_eq!((numbers() & 6).run(&env), col("numbers").and(int32(6)));
    assert_eq!((numbers() | 6).run(&env), col("numbers").or(int32(6)));
    assert_eq!((numbers() ^ 6).run(&env), col("numbers").xor(int32(6)));
    assert_ne!((numbers() + 1).run(&env), col("numbers") + lit(1i32));
}

#[test]
fn scalar_on_the_left_keeps_its_side() {
    let env = environment();
    assert_eq!((1 + numbers()).run(&env), int32(1) + col("numbers"));
    assert_eq!((1 - numbers()).run(&env), int32(1) - col("numbers"));
    assert_eq!((2 * numbers()).run(&env), int32(2) * col("numbers"));
    assert_eq!((2 / numbers()).run(&env), int32(2) / col("numbers"));
    assert_eq!((2 % numbers()).run(&env), int32(2) % col("numbers"));
    assert_eq!((6 & numbers()).run(&env), int32(6).and(col("numbers")));
    assert_eq!((6 | numbers()).run(&env), int32(6).or(col("numbers")));
    assert_eq!((6 ^ numbers()).run(&env), int32(6).xor(col("numbers")));
}

#[test]
fn comparison_methods_build_the_engines_expressions() {
    let env = environment();
    assert_eq!(numbers().gt(modified()).run(&env), col("numbers").gt(col("modified_numbers")));
    assert_eq!(numbers().gt_eq(modified()).run(&env), col("numbers").gt_eq(col("modified_numbers")));
    assert_eq!(numbers().lt(modified()).run(&env), col("numbers").lt(col("modified_numbers")));
    assert_eq!(numbers().lt_eq(modified()).run(&env), col("numbers").lt_eq(col("modified_numbers")));
    assert_eq!(numbers().eq_to(modified()).run(&env), col("numbers").eq(col("modified_numbers")));
    assert_eq!(numbers().ne_to(modified()).run(&env), col("numbers").neq(col("modified_numbers")));
    assert_eq!(numbers().gt(2i32).run(&env), col("numbers").gt(lit(2i32)));
    assert_ne!(numbers().gt(modified()).run(&env), col("numbers").gt_eq(col("modified_numbers")));
    assert_ne!(numbers().lt(modified()).run(&env), col("modified_numbers").lt(col("numbers")));
}

#[test]
fn floor_div_pow_and_alias_build_the_engines_expressions() {
    let env = environment();
    assert_eq!(
        numbers().floor_div(modified()).run(&env),
        col("numbers").floor_div(col("modified_numbers"))
    );
    assert_eq!(numbers().pow(2i32).run(&env), col("numbers").pow(lit(2i32)));
    assert_eq!(numbers().alias("renamed").run(&env), col("numbers").alias("renamed"));
    assert_ne!(numbers().alias("renamed").run(&env), col("numbers"));
    assert_ne!(numbers().alias("renamed").run(&env), col("numbers").alias("other"));
    assert_ne!(numbers().floor_div(modified()).run(&env), col("numbers") / col("modified_numbers"));
}

#[test]
fn map_applies_the_function_to_what_the_reader_yields() {
    let env = environment().with_prefix("modified_");
    let mapped = datadrill::map(|expr: Expr| expr.alias("seen"), numbers());
    assert_eq!(mapped.run(&env), col("modified_numbers").alias("seen"));
    assert_eq!(
        datadrill::map(|expr: Expr| expr, Field::new("missing").reader()).try_run(&env),
        Err("modified_missing not in schema".to_string())
    );
}

#[test]
fn lifted_functions_get_their_operands_in_order() {
    let env = environment();
    let pair = map2(|a: Expr, b: Expr| a - b, numbers(), modified());
    assert_eq!(pair.run(&env), col("numbers") - col("modified_numbers"));
    let mixed = field_function2(|a: Expr, b: Expr| a - b, Field::new("numbers"), 5i32);
    assert_eq!(mixed.run(&env), col("numbers") - lit(5i32));
    let triple = field_function3(
        |a: Expr, b: Expr, c: Expr| (a - b) * c,
        &Field::new("numbers"),
        use_prefix("modified_", numbers()),
        "x",
    );
    assert_eq!(
        triple.run(&env),
        (col("numbers") - col("modified_numbers")) * lit("x")
    );
    let missing = field_function3(
        |a: Expr, _b: Expr, _c: Expr| a,
        numbers(),
        Field::new("second"),
        Field::new("third"),
    );
    assert_eq!(missing.try_run(&env), Err("second not in schema".to_string()));
}

#[test]
fn series_function_builds_a_fresh_expression_on_each_run() {
    let env = environment();
    let reader = series_function3(|a, _b, _c| a, numbers(), modified(), pure(1i32));
    let first = reader.run(&env);
    let second = reader.run(&env);
    assert_ne!(first, second);
    assert_ne!(first, col("numbers"));
    assert_eq!(
        series_function3(|a, _b, _c| a, numbers(), Field::new("missing"), pure(1i32))
            .try_run(&env),
        Err("missing not in schema".to_string())
    );
}

fn shareable<T: Send + Sync + Clone + 'static>(_value: &T) {}

#[test]
fn readers_can_be_shared_between_evaluators() {
    let composed = datadrill::map(|expr: Expr| expr, numbers() + pure(1i32));
    shareable(&composed);
    shareable(&Field::new("numbers"));
    shareable(&environment());
    shareable(&ask());
}
