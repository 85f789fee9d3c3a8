use wh2pg::json::{headers_object, JsonNumber, JsonValue};

fn s(t: &str) -> JsonValue {
    JsonValue::String(t.to_string())
}

fn obj(members: Vec<(&str, JsonValue)>) -> JsonValue {
    JsonValue::Object(members.into_iter().map(|(k, v)| (k.to_string(), v)).collect())
}

#[test]
fn field_of_object_member() {
    let v = obj(vec![("a", s("x")), ("b", JsonValue::Bool(true))]);
    assert_eq!(v.get_field("a"), &s("x"));
    assert_eq!(v.get_field("b"), &JsonValue::Bool(true));
}

#[test]
fn field_missing_is_null() {
    let v = obj(vec![("a", s("x"))]);
    assert_eq!(v.get_field("c"), &JsonValue::Null);
}

#[test]
fn field_of_non_object_is_null() {
    assert_eq!(s("a").get_field("a"), &JsonValue::Null);
    assert_eq!(JsonValue::Null.get_field("a"), &JsonValue::Null);
    let arr = JsonValue::Array(vec![obj(vec![("a", s("x"))])]);
    assert_eq!(arr.get_field("a"), &JsonValue::Null);
}

#[test]
fn nested_fields_chain_through_null() {
    let v = obj(vec![("scanner", obj(vec![("name", s("Trivy"))]))]);
    assert_eq!(v.get_field("scanner").get_field("name").as_str(), Some("Trivy"));
    assert_eq!(v.get_field("nothing").get_field("name").as_str(), None);
}

#[test]
fn as_str_only_for_strings() {
    assert_eq!(s("hi").as_str(), Some("hi"));
    assert_eq!(JsonValue::Number(JsonNumber::PosInt(1)).as_str(), None);
    assert_eq!(JsonValue::Null.as_str(), None);
}

#[test]
fn as_i64_of_numbers() {
    assert_eq!(JsonValue::Number(JsonNumber::PosInt(42)).as_i64(), Some(42));
    assert_eq!(JsonValue::Number(JsonNumber::NegInt(-7)).as_i64(), Some(-7));
    assert_eq!(
        JsonValue::Number(JsonNumber::PosInt(9223372036854775807)).as_i64(),
        Some(9223372036854775807)
    );
    assert_eq!(JsonValue::Number(JsonNumber::PosInt(9223372036854775808)).as_i64(), None);
    assert_eq!(JsonValue::Number(JsonNumber::Float("1.5".to_string())).as_i64(), None);
    assert_eq!(s("3").as_i64(), None);
    assert_eq!(JsonValue::Bool(true).as_i64(), None);
}

#[test]
fn headers_last_occurrence_wins() {
    let headers = vec![
        ("accept".to_string(), Some("a".to_string())),
        ("x-id".to_string(), Some("1".to_string())),
        ("accept".to_string(), Some("b".to_string())),
    ];
    let doc = headers_object(&headers);
    assert_eq!(doc.get_field("accept").as_str(), Some("b"));
    assert_eq!(doc.get_field("x-id").as_str(), Some("1"));
    assert_eq!(doc.get_field("host"), &JsonValue::Null);
    match doc {
        JsonValue::Object(entries) => assert_eq!(entries.len(), 2),
        _ => panic!("headers document is not an object"),
    }
}

#[test]
fn headers_unreadable_value_is_empty_text() {
    let headers = vec![("x-bin".to_string(), None), ("x-ok".to_string(), Some("v".to_string()))];
    let doc = headers_object(&headers);
    assert_eq!(doc.get_field("x-bin").as_str(), Some(""));
    assert_eq!(doc.get_field("x-ok").as_str(), Some("v"));
}

#[test]
fn headers_later_unreadable_value_replaces_earlier() {
    let headers = vec![("x".to_string(), Some("v".to_string())), ("x".to_string(), None)];
    let doc = headers_object(&headers);
    assert_eq!(doc.get_field("x").as_str(), Some(""));
}

#[test]
fn headers_none_give_empty_object() {
    let doc = headers_object(&Vec::new());
    assert_eq!(doc, JsonValue::Object(Vec::new()));
}
