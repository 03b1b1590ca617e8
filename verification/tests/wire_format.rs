use serde_json::Value;
use wordstat_rs::create_report::report_id_from_response;
use wordstat_rs::delete_result_from_response;
use wordstat_rs::wire::{request_body, to_text};
use wordstat_rs::{ErrorKind, JsonValue};

fn jm(v: &Value) -> JsonValue {
    match v {
        Value::Null => JsonValue::Null,
        Value::Bool(b) => JsonValue::Bool(*b),
        Value::Number(n) => match n.as_i64() {
            Some(i) => JsonValue::Int(i),
            None => JsonValue::OtherNumber,
        },
        Value::String(s) => JsonValue::Text(s.clone()),
        Value::Array(items) => JsonValue::Array(items.iter().map(jm).collect()),
        Value::Object(map) => JsonValue::Object(map.iter().map(|(k, x)| (k.clone(), jm(x))).collect()),
    }
}

#[test]
fn renders_scalars() {
    assert_eq!(to_text(&JsonValue::Null), "null".to_string());
    assert_eq!(to_text(&JsonValue::Bool(true)), "true".to_string());
    assert_eq!(to_text(&JsonValue::Bool(false)), "false".to_string());
    assert_eq!(to_text(&JsonValue::Int(0)), "0".to_string());
    assert_eq!(to_text(&JsonValue::Int(907)), "907".to_string());
    assert_eq!(to_text(&JsonValue::Int(-42)), "-42".to_string());
}

#[test]
fn renders_extreme_integers() {
    assert_eq!(
        to_text(&JsonValue::Int(i64::MAX)),
        "9223372036854775807".to_string()
    );
    assert_eq!(
        to_text(&JsonValue::Int(i64::MIN)),
        "-9223372036854775808".to_string()
    );
}

#[test]
fn escapes_strings() {
    let text = JsonValue::Text("a\"b\\c\nd\te\r\u{8}\u{c}\u{1}\u{1f}ü".to_string());
    assert_eq!(
        to_text(&text),
        "\"a\\\"b\\\\c\\nd\\te\\r\\b\\f\\u0001\\u001fü\"".to_string()
    );
}

#[test]
fn renders_nested_values() {
    let value = JsonValue::Array(vec![
        JsonValue::Object(vec![
            ("k".to_string(), JsonValue::Array(vec![])),
            ("m".to_string(), JsonValue::Object(vec![])),
        ]),
        JsonValue::Null,
        JsonValue::Int(3),
    ]);
    assert_eq!(to_text(&value), r#"[{"k":[],"m":{}},null,3]"#.to_string());
}

#[test]
fn serde_agrees_on_request_text() {
    // The rendering this library proves matches what the reference JSON
    // implementation parses back to the same tree.
    let rendered = to_text(&JsonValue::Array(vec![
        JsonValue::Text("a\"b\\c\nd\u{1}".to_string()),
        JsonValue::Int(-7),
        JsonValue::Null,
        JsonValue::Bool(true),
    ]));
    let reparsed: Value = serde_json::from_str(&rendered).unwrap();
    assert_eq!(
        reparsed,
        serde_json::from_str::<Value>("[\"a\\\"b\\\\c\\nd\\u0001\", -7, null, true]").unwrap()
    );
}

#[test]
fn envelope_without_param_omits_the_key() {
    let body = request_body("GetRegions", "tok", None);
    assert_eq!(
        body,
        r#"{"method":"GetRegions","token":"tok"}"#.to_string()
    );
}

#[test]
fn envelope_with_param_keeps_order() {
    let body = request_body("GetWordstatReport", "t", Some(JsonValue::Int(54)));
    assert_eq!(
        body,
        r#"{"method":"GetWordstatReport","token":"t","param":54}"#.to_string()
    );
}

#[test]
fn delete_acknowledged_with_one() {
    let input: Value = serde_json::from_str(r#"{"data": 1}"#).unwrap();
    assert_eq!(delete_result_from_response(&jm(&input)), Ok(()));
}

#[test]
fn delete_with_other_code_is_unknown_error() {
    let input: Value = serde_json::from_str(r#"{"data": 0}"#).unwrap();
    assert_eq!(delete_result_from_response(&jm(&input)), Err(ErrorKind::UnknownError));
}

#[test]
fn delete_without_data_is_malformed() {
    let input: Value = serde_json::from_str("{}").unwrap();
    assert_eq!(
        delete_result_from_response(&jm(&input)),
        Err(ErrorKind::MalformedResponse { reason: "Data field not found in response" })
    );
}

#[test]
fn delete_with_error_code_maps_through_the_table() {
    let input: Value = serde_json::from_str(r#"{"error_code": 53}"#).unwrap();
    assert_eq!(
        delete_result_from_response(&jm(&input)),
        Err(ErrorKind::AuthenticationFailed)
    );
}

#[test]
fn report_id_is_read_from_data() {
    let input: Value = serde_json::from_str(r#"{"data": 11053065}"#).unwrap();
    assert_eq!(report_id_from_response(&jm(&input)), Ok(11053065));
}

#[test]
fn report_id_must_be_a_number() {
    let input: Value = serde_json::from_str(r#"{"data": "soon"}"#).unwrap();
    assert_eq!(
        report_id_from_response(&jm(&input)),
        Err(ErrorKind::MalformedResponse { reason: "Data field is not a number" })
    );
}

#[test]
fn report_id_must_be_an_integer() {
    let input: Value = serde_json::from_str(r#"{"data": 1.5}"#).unwrap();
    assert_eq!(
        report_id_from_response(&jm(&input)),
        Err(ErrorKind::MalformedResponse { reason: "Data field is not an integer" })
    );
}
