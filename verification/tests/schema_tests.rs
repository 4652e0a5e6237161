use json_array::schema::{
    build_schema, extract_field_specs, FieldSpec, RawField, RecordSchema, SchemaError,
};
use json_array::decimal::parse_position;

fn raw(name: &str, annotation: Option<&str>) -> RawField {
    RawField { name: name.to_string(), annotation: annotation.map(|a| a.to_string()) }
}

#[test]
fn parse_position_accepts_digits() {
    assert_eq!(parse_position("0"), Some(0));
    assert_eq!(parse_position("7"), Some(7));
    assert_eq!(parse_position("42"), Some(42));
    assert_eq!(parse_position("1000000"), Some(1_000_000));
    assert_eq!(parse_position("18446744073709551615"), Some(usize::MAX));
}

#[test]
fn parse_position_rejects_non_positions() {
    assert_eq!(parse_position(""), None);
    assert_eq!(parse_position("abc"), None);
    assert_eq!(parse_position("-1"), None);
    assert_eq!(parse_position("1.5"), None);
    assert_eq!(parse_position("4 "), None);
    assert_eq!(parse_position("18446744073709551616"), None);
    assert_eq!(parse_position("99999999999999999999999"), None);
}

#[test]
fn extraction_keeps_declaration_order() {
    let fields = vec![raw("id", Some("0")), raw("name", Some("4")), raw("height", Some("1"))];
    let specs = extract_field_specs(&fields).unwrap();
    assert_eq!(specs.len(), 3);
    assert_eq!(specs[0].name, "id");
    assert_eq!(specs[0].position, 0);
    assert_eq!(specs[1].name, "name");
    assert_eq!(specs[1].position, 4);
    assert_eq!(specs[2].name, "height");
    assert_eq!(specs[2].position, 1);
}

#[test]
fn extraction_reports_missing_annotation() {
    let fields = vec![raw("id", Some("0")), raw("name", None)];
    let err = extract_field_specs(&fields).unwrap_err();
    assert_eq!(err, SchemaError::MissingPositionAnnotation { field: "name".to_string() });
    assert_eq!(err.message(), "field `name` is missing a position annotation");
}

#[test]
fn extraction_reports_invalid_annotation() {
    let fields = vec![raw("id", Some("zero"))];
    let err = extract_field_specs(&fields).unwrap_err();
    assert_eq!(err, SchemaError::InvalidPositionAnnotation { field: "id".to_string() });
    assert_eq!(err.message(), "invalid position annotation for field `id`");
}

#[test]
fn extraction_reports_first_failing_field() {
    let fields = vec![raw("a", Some("1")), raw("b", None), raw("c", Some("bad"))];
    let err = extract_field_specs(&fields).unwrap_err();
    assert_eq!(err, SchemaError::MissingPositionAnnotation { field: "b".to_string() });
}

#[test]
fn schema_derives_max_position() {
    let fields = vec![raw("id", Some("0")), raw("name", Some("4")), raw("height", Some("1"))];
    let schema = build_schema(&fields).unwrap();
    assert_eq!(schema.max_position, 4);
    assert_eq!(schema.min_required_len(), 5);
}

#[test]
fn schema_max_position_ignores_declaration_order() {
    let fields = vec![raw("id", Some("2")), raw("name", Some("0")), raw("height", Some("1"))];
    let schema = build_schema(&fields).unwrap();
    assert_eq!(schema.max_position, 2);
    assert_eq!(schema.min_required_len(), 3);
}

#[test]
fn empty_schema_still_demands_one_element() {
    let fields: Vec<RawField> = vec![];
    let schema = build_schema(&fields).unwrap();
    assert_eq!(schema.fields.len(), 0);
    assert_eq!(schema.max_position, 0);
    assert_eq!(schema.min_required_len(), 1);
}

#[test]
fn schema_from_field_specs_directly() {
    let schema = RecordSchema::new(vec![
        FieldSpec { name: "x".to_string(), position: 9 },
        FieldSpec { name: "y".to_string(), position: 3 },
    ]);
    assert_eq!(schema.max_position, 9);
    assert_eq!(schema.fields.len(), 2);
}
