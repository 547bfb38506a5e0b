use backend_bridge::proxy::{call_result, Exchange};
use backend_bridge::request::RequestError;
use backend_bridge::response::{http_failure, is_success_status, parsed_body, transport_failure, ApiResult};
use backend_bridge::supervisor::StartupError;
use serde_json::Value;

#[test]
fn transport_failure_reports_its_text() {
    let r = call_result(Exchange::TransportFailed("connection refused".to_string()));
    assert!(!r.success);
    assert!(r.data.is_none());
    assert_eq!(r.error, Some("connection refused".to_string()));
}

#[test]
fn transport_failure_without_text_is_not_empty() {
    let r = transport_failure("");
    assert!(!r.success);
    assert_eq!(r.error, Some("could not reach the backend".to_string()));
}

#[test]
fn failure_status_holds_code_and_body() {
    let r = call_result(Exchange::FailureStatus { status: 404, body: "not here".to_string() });
    assert!(!r.success);
    assert!(r.data.is_none());
    assert_eq!(r.error, Some("HTTP 404: not here".to_string()));
}

#[test]
fn failure_status_with_empty_body() {
    let r = http_failure(500, "");
    assert_eq!(r.error, Some("HTTP 500: ".to_string()));
    assert_eq!(http_failure(7, "x").error, Some("HTTP 7: x".to_string()));
    assert_eq!(http_failure(65535, "y").error, Some("HTTP 65535: y".to_string()));
    assert_eq!(http_failure(0, "z").error, Some("HTTP 0: z".to_string()));
}

#[test]
fn success_status_range() {
    assert!(is_success_status(200));
    assert!(is_success_status(204));
    assert!(is_success_status(299));
    assert!(!is_success_status(199));
    assert!(!is_success_status(300));
    assert!(!is_success_status(404));
}

#[test]
fn parsed_body_is_data() {
    let v = Value::from(vec![1, 2]);
    let r = call_result(Exchange::Parsed(v.clone()));
    assert!(r.success);
    assert_eq!(r.data, Some(v));
    assert!(r.error.is_none());
}

#[test]
fn unparsable_body_is_error() {
    let r = parsed_body(Err("expected value at line 1 column 1".to_string()));
    assert!(!r.success);
    assert!(r.data.is_none());
    assert_eq!(r.error, Some("expected value at line 1 column 1".to_string()));
    let r = call_result(Exchange::Unparsable("bad".to_string()));
    assert_eq!(r.error, Some("bad".to_string()));
}

#[test]
fn unavailable_backend_is_reported() {
    let r = call_result(Exchange::Unavailable(StartupError::BackendNotFound));
    assert!(!r.success);
    assert_eq!(r.error, Some("backend unavailable: backend directory not found".to_string()));
    let r = call_result(Exchange::Unavailable(StartupError::BackendStartupFailed("timed out".to_string())));
    assert_eq!(r.error, Some("backend unavailable: backend is not responding: timed out".to_string()));
    let r = call_result(Exchange::Unavailable(StartupError::LaunchFailed("no python3".to_string())));
    assert_eq!(r.error, Some("backend unavailable: failed to start backend: no python3".to_string()));
}

#[test]
fn refused_request_is_reported() {
    let r = call_result(Exchange::Refused(RequestError::EmptyEndpoint));
    assert!(!r.success);
    assert_eq!(r.error, Some("endpoint must not be empty".to_string()));
}

#[test]
fn result_constructors() {
    let ok = ApiResult::succeeded(Value::Bool(true));
    assert!(ok.success && ok.error.is_none());
    let bad = ApiResult::failed("boom".to_string());
    assert!(!bad.success && bad.data.is_none());
}
