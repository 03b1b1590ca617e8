use serde_json::Value;
use wordstat_rs::{check_http_status, check_status, map_service_error_code, ErrorKind, JsonValue};

fn jm(v: &Value) -> JsonValue {
    match v {
        Value::Null => JsonValue::Null,
        Value::Bool(b) => JsonValue::Bool(*b),
        Value::Number(n) => match n.as_i64() {
            Some(i) => JsonValue::Int(i),
            None => JsonValue::OtherNumber,
        },
        Value::String(s) => JsonValue::Text(s.clone()),
        Value::Array(items) => JsonValue::Array(items.iter().map(jm).collect()),
        Value::Object(map) => JsonValue::Object(map.iter().map(|(k, x)| (k.clone(), jm(x))).collect()),
    }
}

#[test]
fn no_error_code_means_success() {
    let input: Value = serde_json::from_str("{}").unwrap();
    assert_eq!(check_status(&jm(&input)), Ok(()));
}

#[test]
fn error_code_31_is_queue_full() {
    let input: Value = serde_json::from_str(r#"{"error_code": 31}"#).unwrap();
    assert_eq!(check_status(&jm(&input)), Err(ErrorKind::ReportQueueFull));
}

#[test]
fn error_code_999_is_unrecognized() {
    let input: Value = serde_json::from_str(r#"{"error_code": 999}"#).unwrap();
    assert_eq!(check_status(&jm(&input)), Err(ErrorKind::UnrecognizedStatusCode { code: 999 }));
}

#[test]
fn non_integer_error_code_is_malformed() {
    let input: Value = serde_json::from_str(r#"{"error_code": "nope"}"#).unwrap();
    assert_eq!(
        check_status(&jm(&input)),
        Err(ErrorKind::MalformedResponse { reason: "Error code is not an integer" })
    );
}

#[test]
fn fractional_error_code_is_malformed() {
    let input: Value = serde_json::from_str(r#"{"error_code": 31.5}"#).unwrap();
    assert_eq!(
        check_status(&jm(&input)),
        Err(ErrorKind::MalformedResponse { reason: "Error code is not an integer" })
    );
}

#[test]
fn every_known_code_maps_to_its_kind() {
    assert_eq!(map_service_error_code(24), ErrorKind::ReportNotFound);
    assert_eq!(map_service_error_code(91), ErrorKind::ReportNotFound);
    assert_eq!(map_service_error_code(22), ErrorKind::InvalidReportId);
    assert_eq!(map_service_error_code(93), ErrorKind::InvalidReportId);
    assert_eq!(map_service_error_code(31), ErrorKind::ReportQueueFull);
    assert_eq!(map_service_error_code(152), ErrorKind::QuotaExhausted);
    assert_eq!(map_service_error_code(53), ErrorKind::AuthenticationFailed);
    assert_eq!(map_service_error_code(58), ErrorKind::AccessDenied);
    assert_eq!(map_service_error_code(500), ErrorKind::ServiceInternalError);
    assert_eq!(map_service_error_code(501), ErrorKind::InvalidRequest);
    assert_eq!(map_service_error_code(74), ErrorKind::ReportNotReady);
    assert_eq!(map_service_error_code(92), ErrorKind::ReportNotReady);
    assert_eq!(map_service_error_code(71), ErrorKind::InvalidRequestParameters);
}

#[test]
fn unknown_codes_carry_their_value() {
    assert_eq!(map_service_error_code(0), ErrorKind::UnrecognizedStatusCode { code: 0 });
    assert_eq!(map_service_error_code(-7), ErrorKind::UnrecognizedStatusCode { code: -7 });
    assert_eq!(map_service_error_code(73), ErrorKind::UnrecognizedStatusCode { code: 73 });
    assert_eq!(map_service_error_code(151), ErrorKind::UnrecognizedStatusCode { code: 151 });
}

#[test]
fn only_http_status_200_is_success() {
    assert_eq!(check_http_status(200), Ok(()));
    assert_eq!(check_http_status(301), Err(ErrorKind::TransportError { code: 301 }));
    assert_eq!(check_http_status(404), Err(ErrorKind::TransportError { code: 404 }));
    assert_eq!(check_http_status(500), Err(ErrorKind::TransportError { code: 500 }));
}

#[test]
fn duplicate_keys_resolve_to_the_first_binding() {
    let envelope = JsonValue::Object(vec![
        ("error_code".to_string(), JsonValue::Int(31)),
        ("error_code".to_string(), JsonValue::Int(999)),
    ]);
    assert_eq!(check_status(&envelope), Err(ErrorKind::ReportQueueFull));
}

#[test]
fn non_object_envelope_has_no_error_code() {
    assert_eq!(check_status(&JsonValue::Int(31)), Ok(()));
}

#[test]
fn status_check_ignores_other_fields() {
    let input: Value = serde_json::from_str(r#"{"data": [1, 2, 3]}"#).unwrap();
    assert_eq!(check_status(&jm(&input)), Ok(()));
}
