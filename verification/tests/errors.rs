use sealedstruct::ValidationError;
use sealedstruct::ValidationErrors;
use sealedstruct::ValidationResultExtensions;

fn field_names(e: &ValidationError) -> Vec<&str> {
    e.iter_fields().iter().map(|s| s.as_str()).collect::<Vec<&str>>()
}

#[test]
fn add_error_to_ok_result() {
    let mut result: Result<i32, ValidationErrors> = Ok(1);
    result = result.append_error(ValidationError::on_fields("Foo", vec![], "FooError"));
    let mut errors = result.unwrap_err().into_vec().into_iter();

    assert_eq!(vec!["Foo"], field_names(&errors.next().expect("OneError")));
    assert_eq!(errors.next(), None);
}

#[test]
fn add_error_to_err_result() {
    let mut result: Result<(), ValidationErrors> =
        Err(ValidationErrors::new(ValidationError::on_fields("Foo", vec![], "FooError")));
    result = result.append_error(ValidationError::on_fields("Bar", vec![], "BarError"));
    let mut errors = result.unwrap_err().into_vec().into_iter();

    assert_eq!(vec!["Foo"], field_names(&errors.next().expect("OneError")));
    assert_eq!(vec!["Bar"], field_names(&errors.next().expect("OneError")));
}

#[test]
fn comine_errors() {
    let error1: ValidationErrors = ValidationError::on_field("Foo", "FooError").into();
    let error2 = ValidationError::on_field("Foo", "FooError").into();
    let combined = error1.combine_with(error2);
    assert_eq!(2, combined.into_vec().into_iter().count());
}

#[test]
fn format_validation_error() {
    let result: Result<(), ValidationErrors> =
        ValidationError::on_field("Foo", "CustomMessage").into();
    let result = result.prepend_path("Baz");

    assert_eq!(
        "ValidationErrors(1): {Baz.Foo: [\"CustomMessage\"]}".to_string(),
        result.unwrap_err().summary()
    );
}

#[test]
fn combine_is_associative_with_identity() {
    let make = |field: &str, reason: &str| {
        ValidationErrors::new(ValidationError::on_field(field, reason))
    };
    let left = make("a", "A").combine_with(make("b", "B")).combine_with(make("c", "C"));
    let right = make("a", "A").combine_with(make("b", "B").combine_with(make("c", "C")));
    let left_fields: Vec<String> = left
        .into_vec()
        .iter()
        .map(|e| e.iter_fields()[0].clone())
        .collect();
    let right_fields: Vec<String> = right
        .into_vec()
        .iter()
        .map(|e| e.iter_fields()[0].clone())
        .collect();
    assert_eq!(left_fields, vec!["a", "b", "c"]);
    assert_eq!(left_fields, right_fields);

    let with_identity = make("a", "A").combine_with(ValidationErrors::default());
    assert_eq!(1, with_identity.len());
}

#[test]
fn prepend_path_prefixes_first_segment() {
    let result: Result<(), ValidationErrors> =
        Err(ValidationErrors::new(ValidationError::on_field("x", "R")));
    let errors = result.prepend_path("p").unwrap_err().into_vec();
    assert_eq!(1, errors.len());
    assert_eq!(vec!["p.x"], field_names(&errors[0]));
}

#[test]
fn prepend_path_replaces_empty_segment() {
    let result: Result<(), ValidationErrors> =
        Err(ValidationErrors::new(ValidationError::new("R")));
    let errors = result.prepend_path("p").unwrap_err().into_vec();
    assert_eq!(vec!["p"], field_names(&errors[0]));
}

#[test]
fn prepend_path_leaves_success_untouched() {
    let result: Result<i32, ValidationErrors> = Ok(7);
    assert_eq!(Ok(7), result.prepend_path("p"));
}

#[test]
fn summary_counts_in_decimal() {
    let mut errors = ValidationErrors::default();
    for _ in 0..12 {
        errors = errors.combine_with(ValidationErrors::new(ValidationError::on_field("f", "r")));
    }
    let summary = errors.summary();
    assert!(summary.starts_with("ValidationErrors(12): {"), "{summary}");
}

#[test]
fn summary_caps_groups_with_ellipsis() {
    let mut errors = ValidationErrors::default();
    for name in ["a", "b", "c", "d", "e", "f"] {
        errors = errors.combine_with(ValidationErrors::new(ValidationError::on_field(name, "r")));
    }
    let summary = errors.summary();
    assert_eq!(
        "ValidationErrors(6): {a: [\"r\"], b: [\"r\"], c: [\"r\"], d: [\"r\"], e: [\"r\"], ...}",
        summary
    );
}

#[test]
fn summary_groups_reasons_by_field() {
    let errors = ValidationErrors::new(ValidationError::on_field("f", "one"))
        .combine_with(ValidationErrors::new(ValidationError::on_field("f", "two")));
    assert_eq!("ValidationErrors(2): {f: [\"one\", \"two\"]}", errors.summary());
}

#[test]
fn on_fields_carries_every_segment() {
    let e = ValidationError::on_fields("a", vec!["b".to_string(), "c".to_string()], "R");
    assert_eq!(vec!["a", "b", "c"], field_names(&e));
    assert_eq!("R", e.reason);
}
