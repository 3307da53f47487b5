//! Unit tests for the verified building blocks: JSON encoding and checking,
//! method validation, normalization, classification, and the DTO checks.

use endpoint::descriptor::{RawRequest, dedup_last_wins, headers_from_json, normalize};
use endpoint::dto::{CreateCollectionDto, CreateUserDto, LoginDto};
use endpoint::json::{JsonValue, check_number, encode_json, json_wf_check};
use endpoint::method::validate_method;
use endpoint::outcome::{RawOutcome, classify};
use endpoint::result::{BodyMode, ExecutionResult, ReplayBody, assemble, replay_body_text,
    sentinel_text};
use endpoint::state::AppState;
use endpoint::text::u16_to_string;

#[test]
fn encode_scalars() {
    assert_eq!(encode_json(&JsonValue::Null), "null");
    assert_eq!(encode_json(&JsonValue::Bool(true)), "true");
    assert_eq!(encode_json(&JsonValue::Bool(false)), "false");
    assert_eq!(encode_json(&JsonValue::Num("-12.5e3".to_string())), "-12.5e3");
    assert_eq!(encode_json(&JsonValue::Str("hi".to_string())), "\"hi\"");
}

#[test]
fn encode_escapes_strings() {
    let v = JsonValue::Str("a\"b\\c\nd".to_string());
    assert_eq!(encode_json(&v), "\"a\\\"b\\\\c\\u000ad\"");
}

#[test]
fn encode_nested_structure() {
    let v = JsonValue::Object(vec![
        ("list".to_string(), JsonValue::Array(vec![
            JsonValue::Num("1".to_string()),
            JsonValue::Num("2".to_string()),
        ])),
        ("empty".to_string(), JsonValue::Array(Vec::new())),
        ("obj".to_string(), JsonValue::Object(Vec::new())),
    ]);
    assert_eq!(encode_json(&v), "{\"list\":[1,2],\"empty\":[],\"obj\":{}}");
}

#[test]
fn number_grammar_accepts_and_rejects() {
    for good in ["0", "-0", "7", "42", "12.5", "-12.5e-3", "1e10", "0.5", "2E+8"] {
        assert!(check_number(good), "{} should pass", good);
    }
    for bad in ["", "-", "01", "1.", ".5", "1e", "+1", "abc", "1.2.3", "1e+", "--1", "0x1"] {
        assert!(!check_number(bad), "{} should fail", bad);
    }
}

#[test]
fn wf_check_walks_the_value() {
    let good = JsonValue::Array(vec![
        JsonValue::Num("1".to_string()),
        JsonValue::Object(vec![("k".to_string(), JsonValue::Num("2.5".to_string()))]),
    ]);
    assert!(json_wf_check(&good));
    let bad = JsonValue::Array(vec![
        JsonValue::Num("1".to_string()),
        JsonValue::Object(vec![("k".to_string(), JsonValue::Num("2.5.0".to_string()))]),
    ]);
    assert!(!json_wf_check(&bad));
}

#[test]
fn method_validation_recognizes_the_seven_verbs() {
    for good in ["GET", "POST", "PUT", "PATCH", "DELETE", "HEAD", "OPTIONS"] {
        assert!(validate_method(good), "{} should pass", good);
    }
    for bad in ["", "get", "BOGUS", "TRACE", "G ET", "GET "] {
        assert!(!validate_method(bad), "{:?} should fail", bad);
    }
}

#[test]
fn status_renders_in_decimal() {
    assert_eq!(u16_to_string(0), "0");
    assert_eq!(u16_to_string(7), "7");
    assert_eq!(u16_to_string(404), "404");
    assert_eq!(u16_to_string(65535), "65535");
}

#[test]
fn classify_follows_the_mapping_table() {
    let cases: Vec<(RawOutcome, bool, u16, Option<(&str, &str)>)> = vec![
        (
            RawOutcome::InvalidMethod { method: "BOGUS".to_string() },
            false,
            400,
            Some(("InvalidMethod", "Invalid HTTP method: BOGUS")),
        ),
        (
            RawOutcome::Timeout { detail: "d".to_string() },
            false,
            504,
            Some(("TimeoutException", "Request timed out: d")),
        ),
        (
            RawOutcome::Connection { detail: "d".to_string() },
            false,
            502,
            Some(("ConnectionError", "Connection error: d")),
        ),
        (
            RawOutcome::RequestFailed { detail: "d".to_string() },
            false,
            400,
            Some(("RequestError", "Request error: d")),
        ),
        (
            RawOutcome::BodyReadFailed { detail: "d".to_string() },
            false,
            500,
            Some(("ResponseError", "Failed to read response body: d")),
        ),
        (
            RawOutcome::Response { status: 204, headers: Vec::new(), body: String::new() },
            true,
            204,
            None,
        ),
        (
            RawOutcome::Response { status: 301, headers: Vec::new(), body: String::new() },
            false,
            301,
            Some(("HTTPStatusError", "HTTP Status Error: 301")),
        ),
    ];
    for (outcome, success, status, err) in cases {
        let (s, st, e) = classify(&outcome);
        assert_eq!(s, success);
        assert_eq!(st, status);
        match err {
            None => assert!(e.is_none()),
            Some((ty, msg)) => {
                let e = e.unwrap();
                assert_eq!(e.error_type, ty);
                assert_eq!(e.message, msg);
                assert_eq!(e.status_code, status);
            },
        }
    }
}

#[test]
fn classify_is_repeatable() {
    let outcome = RawOutcome::Response {
        status: 418,
        headers: vec![("x".to_string(), "y".to_string())],
        body: "tea".to_string(),
    };
    let (s1, st1, e1) = classify(&outcome);
    let (s2, st2, e2) = classify(&outcome);
    assert_eq!(s1, s2);
    assert_eq!(st1, st2);
    let (e1, e2) = (e1.unwrap(), e2.unwrap());
    assert_eq!(e1.error_type, e2.error_type);
    assert_eq!(e1.message, e2.message);
    assert_eq!(e1.status_code, e2.status_code);
}

fn empty_descriptor() -> endpoint::descriptor::RequestDescriptor {
    endpoint::descriptor::RequestDescriptor {
        method: "GET".to_string(),
        url: "http://x".to_string(),
        headers: Vec::new(),
        params: Vec::new(),
        body: None,
        timeout_ms: None,
    }
}

#[test]
fn assemble_keeps_body_and_measures_size() {
    let outcome = RawOutcome::Response {
        status: 200,
        headers: vec![("content-type".to_string(), "text/plain".to_string())],
        body: "h\u{e9}llo".to_string(),
    };
    let r: ExecutionResult = assemble(empty_descriptor(), outcome, BodyMode::PassThrough, 12);
    assert!(r.success);
    assert_eq!(r.content, "h\u{e9}llo");
    assert_eq!(r.size_bytes, 6);
    assert_eq!(r.execution_time_ms, 12);
    assert_eq!(r.response_headers, vec![("content-type".to_string(), "text/plain".to_string())]);
    assert!(r.error.is_none());
}

#[test]
fn assemble_parse_mode_uses_sentinel() {
    let outcome = RawOutcome::Response { status: 200, headers: Vec::new(), body: "hi".to_string() };
    let r = assemble(empty_descriptor(), outcome, BodyMode::ParseJson, 0);
    assert!(matches!(r.replay_body, Some(ReplayBody::Sentinel)));
    assert_eq!(replay_body_text(r.replay_body.as_ref().unwrap()), sentinel_text());
    let outcome = RawOutcome::Response {
        status: 200,
        headers: Vec::new(),
        body: "[1,2]".to_string(),
    };
    let r = assemble(empty_descriptor(), outcome, BodyMode::ParseJson, 0);
    match &r.replay_body {
        Some(ReplayBody::Json(s)) => assert_eq!(s, "[1,2]"),
        _ => panic!("expected a JSON replay body"),
    }
}

#[test]
fn normalize_defaults_and_dedups() {
    let raw = RawRequest {
        method: "GET".to_string(),
        url: "http://x".to_string(),
        headers: Some(vec![
            ("a".to_string(), "1".to_string()),
            ("b".to_string(), "2".to_string()),
            ("a".to_string(), "3".to_string()),
        ]),
        params: None,
        body: None,
        timeout_ms: Some(250),
    };
    let d = normalize(raw);
    assert_eq!(d.headers, vec![("a".to_string(), "3".to_string()), ("b".to_string(), "2".to_string())]);
    assert_eq!(d.params, Vec::new());
    assert_eq!(d.timeout_ms, Some(250));
}

#[test]
fn dedup_keeps_last_value() {
    let pairs = vec![
        ("k".to_string(), "1".to_string()),
        ("k".to_string(), "2".to_string()),
        ("k".to_string(), "3".to_string()),
    ];
    assert_eq!(dedup_last_wins(&pairs), vec![("k".to_string(), "3".to_string())]);
    assert_eq!(dedup_last_wins(&Vec::new()), Vec::new());
}

#[test]
fn headers_from_json_keeps_string_members() {
    let v = JsonValue::Object(vec![
        ("good".to_string(), JsonValue::Str("yes".to_string())),
        ("skipped".to_string(), JsonValue::Num("1".to_string())),
        ("also".to_string(), JsonValue::Str("ok".to_string())),
    ]);
    assert_eq!(
        headers_from_json(&v),
        vec![("good".to_string(), "yes".to_string()), ("also".to_string(), "ok".to_string())]
    );
    assert_eq!(headers_from_json(&JsonValue::Null), Vec::new());
}

#[test]
fn dto_validation_reports_the_rule() {
    let u = CreateUserDto {
        email: "a@b.c".to_string(),
        password: "secret1".to_string(),
        name: None,
    };
    assert!(u.validate().is_ok());
    let bad_mail = CreateUserDto {
        email: "nope".to_string(),
        password: "secret1".to_string(),
        name: None,
    };
    assert_eq!(bad_mail.validate().err().unwrap(), "Invalid email format");
    let short = CreateUserDto {
        email: "a@b.c".to_string(),
        password: "12345".to_string(),
        name: None,
    };
    assert_eq!(short.validate().err().unwrap(), "Password must be at least 6 characters");
    let login = LoginDto { email: "a@b".to_string(), password: String::new() };
    assert!(login.validate().is_ok());
    let coll = CreateCollectionDto { name: String::new(), description: None };
    assert_eq!(coll.validate().err().unwrap(), "Name cannot be empty");
}

#[test]
fn app_state_carries_version() {
    let s = AppState::new("1.2.3".to_string());
    assert_eq!(s.app_version, "1.2.3");
}
