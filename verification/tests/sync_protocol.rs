use uptime_sync::json::JsonValue;
use uptime_sync::protocol::{
    SyncError, check_login_response, decode_ack, extract_monitor_id, login_payload,
    monitor_with_id,
};

fn ok_response(ok: bool) -> JsonValue {
    JsonValue::Obj(vec![("ok".to_string(), JsonValue::Bool(ok))])
}

fn num(n: i64) -> JsonValue {
    JsonValue::Num {
        exact: Some(n),
        approx: n as i32,
    }
}

#[test]
fn decode_ack_unwraps_double_nesting() {
    let values = vec![JsonValue::Arr(vec![ok_response(true)])];
    let inner = decode_ack(&values).expect("ack");
    assert!(matches!(inner.get("ok"), Some(JsonValue::Bool(true))));
}

#[test]
fn decode_ack_accepts_single_nesting() {
    let values = vec![ok_response(true)];
    let inner = decode_ack(&values).expect("ack");
    assert!(matches!(inner.get("ok"), Some(JsonValue::Bool(true))));
}

#[test]
fn decode_ack_uses_zero_key_of_an_object() {
    let values = vec![JsonValue::Obj(vec![("0".to_string(), ok_response(true))])];
    let inner = decode_ack(&values).expect("ack");
    assert!(matches!(inner.get("ok"), Some(JsonValue::Bool(true))));
}

#[test]
fn decode_ack_of_empty_payload_is_nothing() {
    assert!(decode_ack(&Vec::new()).is_none());
}

#[test]
fn login_accepted_when_ok_is_true() {
    assert!(check_login_response(&ok_response(true)).is_ok());
}

#[test]
fn login_rejected_with_server_message() {
    let resp = JsonValue::Obj(vec![
        ("ok".to_string(), JsonValue::Bool(false)),
        ("msg".to_string(), JsonValue::Str("bad credentials".to_string())),
    ]);
    match check_login_response(&resp) {
        Err(SyncError::Protocol(m)) => assert_eq!(m, "Login failed: bad credentials"),
        _ => panic!("expected a protocol error"),
    }
}

#[test]
fn login_rejected_without_message_uses_fallback() {
    match check_login_response(&JsonValue::Null) {
        Err(SyncError::Protocol(m)) => assert_eq!(m, "Login failed: Unknown error"),
        _ => panic!("expected a protocol error"),
    }
}

#[test]
fn monitor_id_extracted_on_success() {
    let resp = JsonValue::Obj(vec![
        ("ok".to_string(), JsonValue::Bool(true)),
        ("monitorID".to_string(), num(42)),
    ]);
    assert_eq!(extract_monitor_id(&resp, "add").unwrap(), 42);
}

#[test]
fn monitor_id_missing_is_a_protocol_error() {
    let resp = ok_response(true);
    match extract_monitor_id(&resp, "add") {
        Err(SyncError::Protocol(m)) => assert_eq!(m, "Missing monitorID in add response"),
        _ => panic!("expected a protocol error"),
    }
}

#[test]
fn monitor_refusal_names_event_and_message() {
    let resp = JsonValue::Obj(vec![
        ("ok".to_string(), JsonValue::Bool(false)),
        ("msg".to_string(), JsonValue::Str("no such monitor".to_string())),
    ]);
    match extract_monitor_id(&resp, "editMonitor") {
        Err(SyncError::Protocol(m)) => assert_eq!(m, "editMonitor failed: no such monitor"),
        _ => panic!("expected a protocol error"),
    }
}

#[test]
fn sync_error_carries_its_message() {
    let timeout = SyncError::Timeout("ack wait elapsed".to_string());
    assert_eq!(timeout.message(), "ack wait elapsed");
    let connection = SyncError::Connection("transport closed".to_string());
    assert_eq!(connection.message(), "transport closed");
    let protocol = SyncError::Protocol("malformed ack".to_string());
    assert_eq!(protocol.message(), "malformed ack");
}

#[test]
fn login_payload_holds_credentials_and_empty_token() {
    let p = login_payload("admin", "open sesame");
    match p.get("username") {
        Some(JsonValue::Str(s)) => assert_eq!(s, "admin"),
        _ => panic!("missing username"),
    }
    match p.get("password") {
        Some(JsonValue::Str(s)) => assert_eq!(s, "open sesame"),
        _ => panic!("missing password"),
    }
    match p.get("token") {
        Some(JsonValue::Str(s)) => assert_eq!(s, ""),
        _ => panic!("missing token"),
    }
}

#[test]
fn monitor_with_id_adds_id_and_keeps_fields() {
    let monitor = JsonValue::Obj(vec![
        ("type".to_string(), JsonValue::Str("http".to_string())),
        ("name".to_string(), JsonValue::Str("api".to_string())),
    ]);
    let edited = monitor_with_id(monitor, 9);
    match edited.get("id") {
        Some(JsonValue::Num { exact, .. }) => assert_eq!(*exact, Some(9)),
        _ => panic!("missing id"),
    }
    match edited.get("name") {
        Some(JsonValue::Str(s)) => assert_eq!(s, "api"),
        _ => panic!("missing name"),
    }
    match edited.get("type") {
        Some(JsonValue::Str(s)) => assert_eq!(s, "http"),
        _ => panic!("missing type"),
    }
}
