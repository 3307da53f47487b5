//! Scenario tests for the execution engine.
//!
//! The test environment has no network, not even loopback, so the scenarios
//! that need a live endpoint drive the verified pipeline at its seam: the
//! raw outcome the transport would have produced is handed to the assembler
//! directly. The method-rejection and unreachable-host scenarios run end to
//! end through the real transport.

use endpoint::descriptor::RequestDescriptor;
use endpoint::engine::{build_plan, execute_request, to_replay_response};
use endpoint::json::JsonValue;
use endpoint::outcome::RawOutcome;
use endpoint::result::{BodyMode, ReplayBody, assemble};
use endpoint::transport::new_client;

fn descriptor(method: &str, url: &str) -> RequestDescriptor {
    RequestDescriptor {
        method: method.to_string(),
        url: url.to_string(),
        headers: Vec::new(),
        params: Vec::new(),
        body: None,
        timeout_ms: None,
    }
}

#[test]
fn bogus_method_is_rejected() {
    let client = new_client().unwrap();
    let r = execute_request(&client, descriptor("BOGUS", "http://x"), BodyMode::PassThrough);
    assert_eq!(r.status_code, 400);
    assert!(!r.success);
    let e = r.error.as_ref().unwrap();
    assert_eq!(e.error_type, "InvalidMethod");
    assert_eq!(e.message, "Invalid HTTP method: BOGUS");
    assert_eq!(e.status_code, 400);
    assert_eq!(r.content, "");
    assert_eq!(r.size_bytes, 0);
    assert_eq!(r.request_echo.method, "BOGUS");
}

#[test]
fn unreachable_host_maps_to_bad_gateway() {
    let client = new_client().unwrap();
    let r = execute_request(
        &client,
        descriptor("GET", "http://127.0.0.1:1/"),
        BodyMode::PassThrough,
    );
    assert_eq!(r.status_code, 502);
    assert!(!r.success);
    let e = r.error.as_ref().unwrap();
    assert_eq!(e.error_type, "ConnectionError");
    assert!(e.message.starts_with("Connection error: "));
}

#[test]
fn successful_response_returns_body() {
    let outcome = RawOutcome::Response {
        status: 200,
        headers: vec![("content-type".to_string(), "application/json".to_string())],
        body: "{\"ok\":true}".to_string(),
    };
    let r = assemble(descriptor("GET", "http://x/ok"), outcome, BodyMode::PassThrough, 3);
    assert!(r.success);
    assert_eq!(r.status_code, 200);
    assert_eq!(r.content, "{\"ok\":true}");
    assert!(r.error.is_none());
    assert!(r.replay_body.is_none());
}

#[test]
fn http_error_keeps_status_and_body() {
    let outcome = RawOutcome::Response {
        status: 404,
        headers: Vec::new(),
        body: "not found".to_string(),
    };
    let r = assemble(descriptor("GET", "http://x/missing"), outcome, BodyMode::PassThrough, 3);
    assert!(!r.success);
    assert_eq!(r.status_code, 404);
    assert_eq!(r.content, "not found");
    let e = r.error.as_ref().unwrap();
    assert_eq!(e.error_type, "HTTPStatusError");
    assert_eq!(e.message, "HTTP Status Error: 404");
    assert_eq!(e.status_code, 404);
}

#[test]
fn timeout_maps_to_gateway_timeout() {
    let outcome = RawOutcome::Timeout { detail: "operation timed out".to_string() };
    let r = assemble(descriptor("GET", "http://x/slow"), outcome, BodyMode::PassThrough, 2);
    assert!(!r.success);
    assert_eq!(r.status_code, 504);
    assert_eq!(r.content, "");
    assert_eq!(r.size_bytes, 0);
    let e = r.error.as_ref().unwrap();
    assert_eq!(e.error_type, "TimeoutException");
    assert_eq!(e.message, "Request timed out: operation timed out");
}

#[test]
fn body_read_failure_maps_to_response_error() {
    let outcome = RawOutcome::BodyReadFailed { detail: "broken pipe".to_string() };
    let r = assemble(descriptor("GET", "http://x/"), outcome, BodyMode::PassThrough, 2);
    assert!(!r.success);
    assert_eq!(r.status_code, 500);
    let e = r.error.as_ref().unwrap();
    assert_eq!(e.error_type, "ResponseError");
    assert_eq!(e.message, "Failed to read response body: broken pipe");
}

#[test]
fn replay_non_json_body_becomes_sentinel() {
    let outcome = RawOutcome::Response {
        status: 200,
        headers: Vec::new(),
        body: "hello".to_string(),
    };
    let r = assemble(descriptor("GET", "http://x/plain"), outcome, BodyMode::ParseJson, 1);
    assert!(r.success);
    assert!(r.error.is_none());
    assert!(matches!(r.replay_body, Some(ReplayBody::Sentinel)));
    let out = to_replay_response(&r).unwrap();
    assert_eq!(out.status, 200);
    assert_eq!(out.body, "{\"raw_body\":\"Unable to parse JSON body\"}");
}

#[test]
fn replay_json_body_passes_through() {
    let outcome = RawOutcome::Response {
        status: 200,
        headers: Vec::new(),
        body: "{\"a\":1}".to_string(),
    };
    let r = assemble(descriptor("GET", "http://x/json"), outcome, BodyMode::ParseJson, 1);
    assert!(r.success);
    match &r.replay_body {
        Some(ReplayBody::Json(s)) => assert_eq!(s, "{\"a\":1}"),
        _ => panic!("expected a JSON replay body"),
    }
    let out = to_replay_response(&r).unwrap();
    assert_eq!(out.status, 200);
    assert_eq!(out.body, "{\"a\":1}");
}

#[test]
fn replay_keeps_upstream_error_status() {
    let outcome = RawOutcome::Response {
        status: 404,
        headers: Vec::new(),
        body: "missing".to_string(),
    };
    let r = assemble(descriptor("GET", "http://x/gone"), outcome, BodyMode::ParseJson, 1);
    let out = to_replay_response(&r).unwrap();
    assert_eq!(out.status, 404);
    assert_eq!(out.body, "{\"raw_body\":\"Unable to parse JSON body\"}");
}

#[test]
fn replay_wraps_transport_failure() {
    let client = new_client().unwrap();
    let r = execute_request(
        &client,
        descriptor("GET", "http://127.0.0.1:1/"),
        BodyMode::ParseJson,
    );
    let out = to_replay_response(&r);
    let msg = out.err().unwrap();
    assert!(msg.starts_with("Failed to execute request: Connection error: "));
}

#[test]
fn pass_through_content_matches_size() {
    let outcome = RawOutcome::Response {
        status: 200,
        headers: Vec::new(),
        body: "h\u{e9}llo".to_string(),
    };
    let r = assemble(descriptor("GET", "http://x/text"), outcome, BodyMode::PassThrough, 1);
    assert!(r.success);
    assert_eq!(r.content, "h\u{e9}llo");
    assert_eq!(r.size_bytes, "h\u{e9}llo".len());
    assert_eq!(r.size_bytes, 6);
}

#[test]
fn body_attachment_follows_the_verb() {
    for verb in ["POST", "PUT", "PATCH", "DELETE", "OPTIONS"] {
        let mut desc = descriptor(verb, "http://x/");
        desc.body = Some(JsonValue::Str("x".to_string()));
        let plan = build_plan(&desc).unwrap();
        assert_eq!(plan.body_json.as_deref(), Some("\"x\""), "{} should carry a body", verb);
    }
    for verb in ["GET", "HEAD"] {
        let mut desc = descriptor(verb, "http://x/");
        desc.body = Some(JsonValue::Str("x".to_string()));
        let plan = build_plan(&desc).unwrap();
        assert!(plan.body_json.is_none(), "{} should not carry a body", verb);
    }
}

#[test]
fn plan_encodes_the_body() {
    let mut desc = descriptor("POST", "http://x/submit");
    desc.body = Some(JsonValue::Object(vec![
        ("a".to_string(), JsonValue::Num("1".to_string())),
        (
            "b".to_string(),
            JsonValue::Array(vec![JsonValue::Bool(true), JsonValue::Null]),
        ),
    ]));
    desc.headers = vec![("x-token".to_string(), "abc".to_string())];
    desc.params = vec![("q".to_string(), "1".to_string())];
    desc.timeout_ms = Some(1000);
    let plan = build_plan(&desc).unwrap();
    assert_eq!(plan.method, "POST");
    assert_eq!(plan.url, "http://x/submit");
    assert_eq!(plan.headers, vec![("x-token".to_string(), "abc".to_string())]);
    assert_eq!(plan.params, vec![("q".to_string(), "1".to_string())]);
    assert_eq!(plan.timeout_ms, Some(1000));
    assert_eq!(plan.body_json.as_deref(), Some("{\"a\":1,\"b\":[true,null]}"));
}

#[test]
fn execution_time_is_populated_on_rejection() {
    let client = new_client().unwrap();
    let r = execute_request(&client, descriptor("", "http://x"), BodyMode::PassThrough);
    assert_eq!(r.status_code, 400);
    assert_eq!(r.error.as_ref().unwrap().error_type, "InvalidMethod");
    let _time: u64 = r.execution_time_ms;
}
