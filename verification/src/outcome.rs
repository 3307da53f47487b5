//! Raw transport outcomes and their classification.
//!
//! Every possible outcome of the network phase is mapped to a uniform
//! triple: a success flag, a status code (the upstream one when a response
//! exists, a synthetic one otherwise), and a typed error that is present
//! exactly when the execution did not succeed.

use vstd::prelude::*;
use crate::text::{dec_str, u16_to_string};

verus! {

/// A structured execution error: a typed category, a human-readable
/// message, and the status code the result carries.
pub struct ErrorDetails {
    pub error_type: String,
    pub message: String,
    pub status_code: u16,
}

/// Everything the transport phase can come back with.
///
/// A malformed method is rejected before any network activity; a response
/// whose body could not be read is kept apart from a connection that never
/// produced a response.
pub enum RawOutcome {
    /// The method string is not a valid HTTP token; no call was attempted.
    InvalidMethod { method: String },
    /// The call did not finish within the configured timeout.
    Timeout { detail: String },
    /// Connecting failed: DNS, refusal, reset or handshake failure.
    Connection { detail: String },
    /// Any other transport-level failure, including a malformed URL or
    /// header rejected while building the request.
    RequestFailed { detail: String },
    /// A response arrived but its body could not be read.
    BodyReadFailed { detail: String },
    /// A complete response: status, headers, and the body text as read.
    Response { status: u16, headers: Vec<(String, String)>, body: String },
}

/// An execution succeeds exactly when a response was received and its
/// status code lies in [200, 300).
pub open spec fn outcome_success(o: RawOutcome) -> bool {
    match o {
        RawOutcome::Response { status, .. } => 200 <= status < 300,
        _ => false,
    }
}

/// The status code of the uniform result: the upstream status when a
/// response exists, else a synthetic code naming the failure class.
pub open spec fn outcome_status(o: RawOutcome) -> u16 {
    match o {
        RawOutcome::InvalidMethod { .. } => 400,
        RawOutcome::Timeout { .. } => 504,
        RawOutcome::Connection { .. } => 502,
        RawOutcome::RequestFailed { .. } => 400,
        RawOutcome::BodyReadFailed { .. } => 500,
        RawOutcome::Response { status, .. } => status,
    }
}

/// The error category reported for a failed execution.
pub open spec fn outcome_error_type(o: RawOutcome) -> Seq<char> {
    match o {
        RawOutcome::InvalidMethod { .. } => "InvalidMethod"@,
        RawOutcome::Timeout { .. } => "TimeoutException"@,
        RawOutcome::Connection { .. } => "ConnectionError"@,
        RawOutcome::RequestFailed { .. } => "RequestError"@,
        RawOutcome::BodyReadFailed { .. } => "ResponseError"@,
        RawOutcome::Response { .. } => "HTTPStatusError"@,
    }
}

/// The error message reported for a failed execution.
pub open spec fn outcome_message(o: RawOutcome) -> Seq<char> {
    match o {
        RawOutcome::InvalidMethod { method } => "Invalid HTTP method: "@ + method@,
        RawOutcome::Timeout { detail } => "Request timed out: "@ + detail@,
        RawOutcome::Connection { detail } => "Connection error: "@ + detail@,
        RawOutcome::RequestFailed { detail } => "Request error: "@ + detail@,
        RawOutcome::BodyReadFailed { detail } => "Failed to read response body: "@ + detail@,
        RawOutcome::Response { status, .. } => "HTTP Status Error: "@ + dec_str(status as int),
    }
}

/// Classification is a pure function of the raw outcome: classifying equal
/// outcomes yields identical success flags, status codes, error categories
/// and messages, with no hidden state.
pub proof fn lemma_classify_idempotent(o1: RawOutcome, o2: RawOutcome)
    requires
        o1 == o2,
    ensures
        outcome_success(o1) == outcome_success(o2),
        outcome_status(o1) == outcome_status(o2),
        outcome_error_type(o1) == outcome_error_type(o2),
        outcome_message(o1) == outcome_message(o2),
{
}

fn prefixed(prefix: &str, rest: &str) -> (r: String)
    ensures
        r@ == prefix@ + rest@,
{
    let mut m = String::from_str(prefix);
    m.append(rest);
    m
}

/// Maps a raw outcome to the uniform classification triple: the success
/// flag, the (possibly synthetic) status code, and the typed error, which
/// is present if and only if the execution did not succeed.
pub fn classify(o: &RawOutcome) -> (r: (bool, u16, Option<ErrorDetails>))
    ensures
        r.0 == outcome_success(*o),
        r.1 == outcome_status(*o),
        r.2 is Some <==> !outcome_success(*o),
        match r.2 {
            Some(e) => {
                &&& e.error_type@ == outcome_error_type(*o)
                &&& e.message@ == outcome_message(*o)
                &&& e.status_code == outcome_status(*o)
            },
            None => true,
        },
{
    match o {
        RawOutcome::InvalidMethod { method } => {
            let msg = prefixed("Invalid HTTP method: ", method.as_str());
            (
                false,
                400,
                Some(
                    ErrorDetails {
                        error_type: String::from_str("InvalidMethod"),
                        message: msg,
                        status_code: 400,
                    },
                ),
            )
        },
        RawOutcome::Timeout { detail } => {
            let msg = prefixed("Request timed out: ", detail.as_str());
            (
                false,
                504,
                Some(
                    ErrorDetails {
                        error_type: String::from_str("TimeoutException"),
                        message: msg,
                        status_code: 504,
                    },
                ),
            )
        },
        RawOutcome::Connection { detail } => {
            let msg = prefixed("Connection error: ", detail.as_str());
            (
                false,
                502,
                Some(
                    ErrorDetails {
                        error_type: String::from_str("ConnectionError"),
                        message: msg,
                        status_code: 502,
                    },
                ),
            )
        },
        RawOutcome::RequestFailed { detail } => {
            let msg = prefixed("Request error: ", detail.as_str());
            (
                false,
                400,
                Some(
                    ErrorDetails {
                        error_type: String::from_str("RequestError"),
                        message: msg,
                        status_code: 400,
                    },
                ),
            )
        },
        RawOutcome::BodyReadFailed { detail } => {
            let msg = prefixed("Failed to read response body: ", detail.as_str());
            (
                false,
                500,
                Some(
                    ErrorDetails {
                        error_type: String::from_str("ResponseError"),
                        message: msg,
                        status_code: 500,
                    },
                ),
            )
        },
        RawOutcome::Response { status, .. } => {
            let st = *status;
            if 200 <= st && st < 300 {
                (true, st, None)
            } else {
                let code = u16_to_string(st);
                let mut msg = String::from_str("HTTP Status Error: ");
                msg.append(code.as_str());
                (
                    false,
                    st,
                    Some(
                        ErrorDetails {
                            error_type: String::from_str("HTTPStatusError"),
                            message: msg,
                            status_code: st,
                        },
                    ),
                )
            }
        },
    }
}

} // verus!
