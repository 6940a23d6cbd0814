use atlas::json::Json;
use atlas::fields::{normalize_single_select, read_single_select, single_select_object};
use atlas::FieldError;

fn text(s: &str) -> Json {
    Json::Str(s.to_string())
}

fn members(m: Vec<(&str, Json)>) -> Vec<(String, Json)> {
    m.into_iter().map(|(k, v)| (k.to_string(), v)).collect()
}

#[test]
fn single_select_bare_string_is_kept() {
    let r = normalize_single_select(&text("Global"));
    assert_eq!(r, Ok(Some("Global".to_string())));
    let r = normalize_single_select(&text(""));
    assert_eq!(r, Ok(Some(String::new())));
}

#[test]
fn single_select_object_gives_its_name() {
    let v = Json::Object(members(vec![("id", text("selXYZ")), ("name", text("Public"))]));
    assert_eq!(normalize_single_select(&v), Ok(Some("Public".to_string())));
    let v = Json::Object(members(vec![("name", text("Web")), ("id", text("sel1")), ("color", text("blue"))]));
    assert_eq!(normalize_single_select(&v), Ok(Some("Web".to_string())));
}

#[test]
fn single_select_absent_or_null_is_none() {
    assert_eq!(normalize_single_select(&Json::Null), Ok(None));
    let fields = members(vec![("Name", text("x"))]);
    assert_eq!(read_single_select(&fields, "Type"), Ok(None));
    let fields = members(vec![("Type", Json::Null)]);
    assert_eq!(read_single_select(&fields, "Type"), Ok(None));
}

#[test]
fn single_select_other_shapes_are_errors() {
    assert_eq!(normalize_single_select(&Json::Number("3".to_string())), Err(FieldError::Malformed));
    assert_eq!(normalize_single_select(&Json::Bool(true)), Err(FieldError::Malformed));
    assert_eq!(normalize_single_select(&Json::Array(vec![text("a")])), Err(FieldError::Malformed));
    let v = Json::Object(members(vec![("id", text("sel1"))]));
    assert_eq!(normalize_single_select(&v), Err(FieldError::Malformed));
    let v = Json::Object(members(vec![("id", text("sel1")), ("name", Json::Number("1".to_string()))]));
    assert_eq!(normalize_single_select(&v), Err(FieldError::Malformed));
}

#[test]
fn single_select_object_reads_both_members() {
    let e = members(vec![("id", text("sel9")), ("name", text("Private"))]);
    let f = single_select_object(&e).unwrap();
    assert_eq!(f.id, "sel9");
    assert_eq!(f.name, "Private");
    assert!(single_select_object(&members(vec![("name", text("Private"))])).is_none());
}
