//! The uniform execution result and its assembly.
//!
//! Whatever the transport phase came back with, the assembler produces one
//! fully-formed result: classification, response text, headers, timing and
//! size metrics, an echo of the effective request, and — in replay mode —
//! the JSON-or-sentinel body.

use vstd::prelude::*;
use crate::descriptor::RequestDescriptor;
use crate::outcome::{
    ErrorDetails,
    RawOutcome,
    classify,
    outcome_error_type,
    outcome_message,
    outcome_status,
    outcome_success,
};
use crate::text::{byte_len, byte_length};
use crate::transport::{is_json_text, json_parses};

verus! {

/// How the response body is delivered to the caller.
pub enum BodyMode {
    /// The raw response text is handed through unchanged; no JSON parsing
    /// is attempted on it.
    PassThrough,
    /// The response body is checked as JSON, with a sentinel fallback when
    /// it does not parse.
    ParseJson,
}

/// The body a replay-mode caller receives.
pub enum ReplayBody {
    /// The response text, known to parse as JSON.
    Json(String),
    /// The response text did not parse as JSON; the caller receives the
    /// sentinel object instead, and the execution still counts as whatever
    /// the status made it — a parse failure is never an execution failure.
    Sentinel,
}

/// The canonical outcome of one execution: constructed once, never updated
/// after return.
pub struct ExecutionResult {
    /// True exactly when a response was received with status in [200, 300).
    pub success: bool,
    /// The upstream status, or a synthetic code when no response exists.
    pub status_code: u16,
    /// The response headers as received, empty when no response exists.
    pub response_headers: Vec<(String, String)>,
    /// The raw response text, exactly as read; empty when no response body
    /// was obtained.
    pub content: String,
    /// Present in replay mode only: the JSON-or-sentinel body.
    pub replay_body: Option<ReplayBody>,
    /// Wall time from invocation start to outcome determination, in
    /// milliseconds; populated on every exit path.
    pub execution_time_ms: u64,
    /// The byte length of the body text actually read; zero when none was.
    pub size_bytes: usize,
    /// The effective request as actually attempted.
    pub request_echo: RequestDescriptor,
    /// Present if and only if the execution did not succeed.
    pub error: Option<ErrorDetails>,
}

/// The body text an outcome carries: the response text when a complete
/// response exists, empty otherwise.
pub open spec fn outcome_body(o: RawOutcome) -> Seq<char> {
    match o {
        RawOutcome::Response { body, .. } => body@,
        _ => Seq::empty(),
    }
}

/// The headers an outcome carries: the response headers when a complete
/// response exists, empty otherwise.
pub open spec fn outcome_headers(o: RawOutcome) -> Seq<(String, String)> {
    match o {
        RawOutcome::Response { headers, .. } => headers@,
        _ => Seq::empty(),
    }
}

/// What a replay body must be, given the content it was derived from.
pub open spec fn replay_body_ok(b: ReplayBody, content: Seq<char>) -> bool {
    match b {
        ReplayBody::Json(s) => s@ == content && is_json_text(content),
        ReplayBody::Sentinel => !is_json_text(content),
    }
}

/// The full relation between an assembled result, the request echo, the raw
/// outcome it was derived from, the body mode, and the measured time.
pub open spec fn result_matches(
    r: ExecutionResult,
    echo: RequestDescriptor,
    o: RawOutcome,
    mode: BodyMode,
    elapsed_ms: u64,
) -> bool {
    &&& r.success == outcome_success(o)
    &&& r.status_code == outcome_status(o)
    &&& (r.error is Some <==> !r.success)
    &&& match r.error {
        Some(e) => {
            &&& e.error_type@ == outcome_error_type(o)
            &&& e.message@ == outcome_message(o)
            &&& e.status_code == outcome_status(o)
        },
        None => true,
    }
    &&& r.content@ == outcome_body(o)
    &&& r.response_headers@ == outcome_headers(o)
    &&& r.size_bytes == byte_len(r.content@)
    &&& r.execution_time_ms == elapsed_ms
    &&& r.request_echo == echo
    &&& match mode {
        BodyMode::PassThrough => r.replay_body is None,
        BodyMode::ParseJson => match r.replay_body {
            Some(b) => replay_body_ok(b, r.content@),
            None => false,
        },
    }
}

/// Error presence marks failure: in any assembled result, whatever the
/// outcome, the body mode and the measured time, the structured error is
/// present if and only if the execution did not succeed.
pub proof fn lemma_error_iff_failure(
    r: ExecutionResult,
    echo: RequestDescriptor,
    o: RawOutcome,
    mode: BodyMode,
    elapsed_ms: u64,
)
    requires
        result_matches(r, echo, o, mode, elapsed_ms),
    ensures
        r.error is Some <==> !r.success,
{
}

/// Round trip: in pass-through mode the content of an assembled result is
/// exactly the body text the transport read, unmodified, and the size
/// metric is that text's length in bytes.
pub proof fn lemma_round_trip(
    r: ExecutionResult,
    echo: RequestDescriptor,
    o: RawOutcome,
    elapsed_ms: u64,
)
    requires
        result_matches(r, echo, o, BodyMode::PassThrough, elapsed_ms),
    ensures
        r.content@ == outcome_body(o),
        r.size_bytes == byte_len(outcome_body(o)),
{
}

/// Timing is populated on every exit path: an assembled result carries
/// exactly the elapsed time that was measured, whatever the outcome —
/// a method rejection with no network activity included.
pub proof fn lemma_timing_populated(
    r: ExecutionResult,
    echo: RequestDescriptor,
    o: RawOutcome,
    mode: BodyMode,
    elapsed_ms: u64,
)
    requires
        result_matches(r, echo, o, mode, elapsed_ms),
    ensures
        r.execution_time_ms == elapsed_ms,
{
}

/// Builds the uniform result from the raw outcome.
///
/// The result is fully determined by its inputs: the success flag, status
/// and error follow the classification table; the content is exactly the
/// body text read from the response; the size is the content's byte
/// length; the time is the measured elapsed time, on every path.
pub fn assemble(
    echo: RequestDescriptor,
    o: RawOutcome,
    mode: BodyMode,
    elapsed_ms: u64,
) -> (r: ExecutionResult)
    ensures
        result_matches(r, echo, o, mode, elapsed_ms),
{
    let (success, status_code, error) = classify(&o);
    let (content, response_headers) = match o {
        RawOutcome::Response { body, headers, .. } => (body, headers),
        _ => (String::new(), Vec::new()),
    };
    let size_bytes = byte_length(&content);
    let replay_body = match mode {
        BodyMode::PassThrough => None,
        BodyMode::ParseJson => Some(
            if json_parses(content.as_str()) {
                ReplayBody::Json(content.clone())
            } else {
                ReplayBody::Sentinel
            },
        ),
    };
    ExecutionResult {
        success,
        status_code,
        response_headers,
        content,
        replay_body,
        execution_time_ms: elapsed_ms,
        size_bytes,
        request_echo: echo,
        error,
    }
}

/// The sentinel text substituted for a response body that is not JSON.
pub fn sentinel_text() -> (r: String)
    ensures
        r@ == "{\"raw_body\":\"Unable to parse JSON body\"}"@,
{
    String::from_str("{\"raw_body\":\"Unable to parse JSON body\"}")
}

/// The body text a replay-mode caller receives: the response text itself
/// when it parses as JSON, the sentinel object otherwise.
pub fn replay_body_text(b: &ReplayBody) -> (r: String)
    ensures
        match *b {
            ReplayBody::Json(s) => r@ == s@,
            ReplayBody::Sentinel => r@ == "{\"raw_body\":\"Unable to parse JSON body\"}"@,
        },
{
    match b {
        ReplayBody::Json(s) => s.clone(),
        ReplayBody::Sentinel => sentinel_text(),
    }
}

} // verus!
