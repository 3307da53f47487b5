//! The trusted boundary to the outside world: the pooled HTTP client, the
//! request builder calls, the wall clock, and the JSON parse check.
//!
//! Each item here wraps exactly one outside function; everything around
//! these calls — building the plan, classifying what came back, assembling
//! the result — is verified code.

use vstd::prelude::*;
use crate::method::is_token_method;

verus! {

#[verifier::external_type_specification]
#[verifier::external_body]
pub struct ExClient(reqwest::blocking::Client);

#[verifier::external_type_specification]
#[verifier::external_body]
pub struct ExRequestBuilder(reqwest::blocking::RequestBuilder);

#[verifier::external_type_specification]
#[verifier::external_body]
pub struct ExResponse(reqwest::blocking::Response);

#[verifier::external_type_specification]
#[verifier::external_body]
pub struct ExInstant(std::time::Instant);

/// How a send attempt failed, with the transport's own message.
pub enum SendFailure {
    /// The call did not finish in time.
    Timeout(String),
    /// Connecting failed.
    Connect(String),
    /// Anything else: a malformed URL or header caught at send time, a
    /// protocol error, a redirect loop.
    Other(String),
}

/// Relies on reqwest::blocking::ClientBuilder::build: yields a
/// connection-pooling client meant to be created once and reused, or None
/// when the backend cannot initialize.
#[verifier::external_body]
pub fn new_client() -> Option<reqwest::blocking::Client> {
    reqwest::blocking::Client::builder().build().ok()
}

/// Relies on reqwest::blocking::Client::request and http::Method::from_bytes.
/// from_bytes accepts exactly the non-empty strings of token characters, so
/// a valid method never fails to parse; a malformed URL is recorded in the
/// builder and surfaces as an error at send time.
#[verifier::external_body]
pub fn start_request(
    client: &reqwest::blocking::Client,
    method: &str,
    url: &str,
) -> reqwest::blocking::RequestBuilder
    requires
        is_token_method(method@),
{
    let m = reqwest::Method::from_bytes(method.as_bytes()).unwrap();
    client.request(m, url)
}

/// Relies on reqwest::blocking::RequestBuilder::header: appends the header;
/// an invalid name or value is recorded in the builder and surfaces as an
/// error at send time.
#[verifier::external_body]
pub fn add_header(
    rb: reqwest::blocking::RequestBuilder,
    name: &str,
    value: &str,
) -> reqwest::blocking::RequestBuilder {
    rb.header(name, value)
}

/// Relies on reqwest::blocking::RequestBuilder::query: appends the pair to
/// the URL's query string, percent-encoded.
#[verifier::external_body]
pub fn add_param(
    rb: reqwest::blocking::RequestBuilder,
    name: &str,
    value: &str,
) -> reqwest::blocking::RequestBuilder {
    rb.query(&[(name, value)])
}

/// Relies on reqwest::blocking::RequestBuilder::body: sets the request body
/// to the given bytes.
#[verifier::external_body]
pub fn set_body(
    rb: reqwest::blocking::RequestBuilder,
    body: String,
) -> reqwest::blocking::RequestBuilder {
    rb.body(body)
}

/// Relies on reqwest::blocking::RequestBuilder::timeout: bounds the whole
/// call, from connect until the response body has finished.
#[verifier::external_body]
pub fn set_timeout(
    rb: reqwest::blocking::RequestBuilder,
    millis: u64,
) -> reqwest::blocking::RequestBuilder {
    rb.timeout(std::time::Duration::from_millis(millis))
}

/// Relies on reqwest::blocking::RequestBuilder::send and the error
/// predicates is_timeout and is_connect, which tell the failure classes
/// apart; nothing is promised about which outcome the network yields.
#[verifier::external_body]
pub fn send_request(
    rb: reqwest::blocking::RequestBuilder,
) -> Result<reqwest::blocking::Response, SendFailure> {
    match rb.send() {
        Ok(resp) => Ok(resp),
        Err(e) => {
            if e.is_timeout() {
                Err(SendFailure::Timeout(e.to_string()))
            } else if e.is_connect() {
                Err(SendFailure::Connect(e.to_string()))
            } else {
                Err(SendFailure::Other(e.to_string()))
            }
        },
    }
}

/// Relies on reqwest::blocking::Response::status: the response's status code.
#[verifier::external_body]
pub fn response_status(resp: &reqwest::blocking::Response) -> u16 {
    resp.status().as_u16()
}

/// Relies on reqwest::blocking::Response::headers: the response headers as
/// received, each value read as text, empty for values that are not valid
/// text.
#[verifier::external_body]
pub fn response_headers(resp: &reqwest::blocking::Response) -> Vec<(String, String)> {
    resp.headers().iter().map(
        |(name, value)| (name.to_string(), value.to_str().unwrap_or("").to_string()),
    ).collect()
}

/// Relies on reqwest::blocking::Response::text: reads the full body and
/// decodes it to text, or reports why reading failed.
#[verifier::external_body]
pub fn response_text(resp: reqwest::blocking::Response) -> Result<String, String> {
    match resp.text() {
        Ok(t) => Ok(t),
        Err(e) => Err(e.to_string()),
    }
}

/// Whether a text is a well-formed JSON document, as serde_json accepts it.
pub uninterp spec fn is_json_text(s: Seq<char>) -> bool;

/// Relies on serde_json::from_str::<Value>: whether a text parses as JSON
/// depends on the text alone.
#[verifier::external_body]
pub fn json_parses(s: &str) -> (r: bool)
    ensures
        r == is_json_text(s@),
{
    serde_json::from_str::<serde_json::Value>(s).is_ok()
}

/// Relies on std::time::Instant::now: a point on the monotonic clock.
#[verifier::external_body]
pub fn now_instant() -> std::time::Instant {
    std::time::Instant::now()
}

/// Relies on std::time::Instant::elapsed: the wall time since `start`,
/// in whole milliseconds; nothing is promised about the clock's reading.
#[verifier::external_body]
pub fn elapsed_millis(start: &std::time::Instant) -> u64 {
    start.elapsed().as_millis() as u64
}

} // verus!
