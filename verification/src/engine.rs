//! The unified execution engine.
//!
//! One linear pass: build an executable plan from the descriptor (rejecting
//! a malformed method before any network activity), issue the call over the
//! pooled client, classify whatever came back, and assemble the uniform
//! result. The same engine serves both the arbitrary-fetch path and the
//! stored-request-replay path; only the body mode differs.

use vstd::prelude::*;
use crate::descriptor::{RequestDescriptor, clone_pairs};
use crate::json::{json_text, encode_json};
use crate::method::{
    is_valid_method,
    lemma_valid_method_is_token,
    spec_is_get_or_head,
    validate_method,
    is_get_or_head,
};
use crate::outcome::RawOutcome;
use crate::result::{BodyMode, ExecutionResult, ReplayBody, assemble, result_matches,
    replay_body_text};
use crate::transport::{
    SendFailure,
    add_header,
    add_param,
    elapsed_millis,
    now_instant,
    response_headers,
    response_status,
    response_text,
    send_request,
    set_body,
    set_timeout,
    start_request,
};

verus! {

/// The outbound call as it will actually be attempted: a validated method,
/// the headers and params to attach, the encoded body — present only when
/// the verb may carry one — and the timeout.
pub struct RequestPlan {
    pub method: String,
    pub url: String,
    pub headers: Vec<(String, String)>,
    pub params: Vec<(String, String)>,
    pub body_json: Option<String>,
    pub timeout_ms: Option<u64>,
}

/// Turns a descriptor into an executable plan, or nothing when the method
/// string is not one of the recognized verbs.
///
/// The plan carries an encoded body exactly when the descriptor supplies a
/// body and the verb is neither GET nor HEAD; every other field passes
/// through unchanged.
pub fn build_plan(desc: &RequestDescriptor) -> (r: Option<RequestPlan>)
    requires
        desc.wf(),
    ensures
        r is Some <==> is_valid_method(desc.method@),
        match r {
            Some(p) => {
                &&& p.method@ == desc.method@
                &&& p.url@ == desc.url@
                &&& p.headers@ == desc.headers@
                &&& p.params@ == desc.params@
                &&& p.timeout_ms == desc.timeout_ms
                &&& (p.body_json is Some <==> (desc.body is Some && !spec_is_get_or_head(
                    desc.method@,
                )))
                &&& match (p.body_json, desc.body) {
                    (Some(s), Some(b)) => s@ == json_text(b),
                    _ => true,
                }
            },
            None => true,
        },
{
    if !validate_method(desc.method.as_str()) {
        return None;
    }
    let body_json = if is_get_or_head(desc.method.as_str()) {
        None
    } else {
        match &desc.body {
            Some(b) => Some(encode_json(b)),
            None => None,
        }
    };
    Some(
        RequestPlan {
            method: desc.method.clone(),
            url: desc.url.clone(),
            headers: clone_pairs(&desc.headers),
            params: clone_pairs(&desc.params),
            body_json,
            timeout_ms: desc.timeout_ms,
        },
    )
}

/// Issues the planned call and reports what the transport came back with.
///
/// Nothing can be promised about the network, so the contract only rules
/// out the one outcome this phase can no longer produce: the method was
/// already validated, so the outcome is never a method rejection.
pub fn send_plan(client: &reqwest::blocking::Client, plan: &RequestPlan) -> (o: RawOutcome)
    requires
        is_valid_method(plan.method@),
    ensures
        !(o is InvalidMethod),
{
    proof {
        lemma_valid_method_is_token(plan.method@);
    }
    let mut rb = start_request(client, plan.method.as_str(), plan.url.as_str());
    let hn = plan.headers.len();
    let mut i: usize = 0;
    while i < hn
        invariant
            0 <= i <= hn == plan.headers@.len(),
        decreases hn - i,
    {
        rb = add_header(rb, plan.headers[i].0.as_str(), plan.headers[i].1.as_str());
        i = i + 1;
    }
    let pn = plan.params.len();
    let mut j: usize = 0;
    while j < pn
        invariant
            0 <= j <= pn == plan.params@.len(),
        decreases pn - j,
    {
        rb = add_param(rb, plan.params[j].0.as_str(), plan.params[j].1.as_str());
        j = j + 1;
    }
    match &plan.body_json {
        Some(b) => {
            rb = add_header(rb, "Content-Type", "application/json");
            rb = set_body(rb, b.clone());
        },
        None => {},
    }
    match plan.timeout_ms {
        Some(ms) => {
            rb = set_timeout(rb, ms);
        },
        None => {},
    }
    match send_request(rb) {
        Err(f) => match f {
            SendFailure::Timeout(detail) => RawOutcome::Timeout { detail },
            SendFailure::Connect(detail) => RawOutcome::Connection { detail },
            SendFailure::Other(detail) => RawOutcome::RequestFailed { detail },
        },
        Ok(resp) => {
            let status = response_status(&resp);
            let headers = response_headers(&resp);
            match response_text(resp) {
                Ok(body) => RawOutcome::Response { status, headers, body },
                Err(detail) => RawOutcome::BodyReadFailed { detail },
            }
        },
    }
}

/// Executes one request description end to end and returns the uniform
/// result.
///
/// Whatever the network did, the result is a faithful assembly of some raw
/// outcome: the timing field holds the measured elapsed time on every exit
/// path, the error is present exactly when the execution did not succeed,
/// and the method-rejection outcome arises exactly for a malformed method —
/// in that case with status 400, the typed error, and no response content.
pub fn execute_request(
    client: &reqwest::blocking::Client,
    desc: RequestDescriptor,
    mode: BodyMode,
) -> (r: ExecutionResult)
    requires
        desc.wf(),
    ensures
        r.request_echo == desc,
        r.error is Some <==> !r.success,
        r.success ==> 200 <= r.status_code < 300,
        match r.error {
            Some(e) => e.status_code == r.status_code,
            None => true,
        },
        r.size_bytes == crate::text::byte_len(r.content@),
        (mode is PassThrough ==> r.replay_body is None),
        (mode is ParseJson ==> r.replay_body is Some),
        exists|o: RawOutcome, t: u64|
            {
                &&& #[trigger] result_matches(r, desc, o, mode, t)
                &&& ((o is InvalidMethod) <==> !is_valid_method(desc.method@))
                &&& (o matches RawOutcome::InvalidMethod { method } ==> method@ == desc.method@)
            },
        !is_valid_method(desc.method@) ==> {
            &&& !r.success
            &&& r.status_code == 400
            &&& r.content@ == Seq::<char>::empty()
            &&& r.size_bytes == 0
            &&& match r.error {
                Some(e) => {
                    &&& e.error_type@ == "InvalidMethod"@
                    &&& e.message@ == "Invalid HTTP method: "@ + desc.method@
                    &&& e.status_code == 400
                },
                None => false,
            }
        },
{
    let start = now_instant();
    let outcome = match build_plan(&desc) {
        None => RawOutcome::InvalidMethod { method: desc.method.clone() },
        Some(plan) => send_plan(client, &plan),
    };
    let elapsed = elapsed_millis(&start);
    let r = assemble(desc, outcome, mode, elapsed);
    proof {
        assert(result_matches(r, desc, outcome, mode, elapsed));
        assert(crate::text::byte_len(Seq::<char>::empty()) == 0);
    }
    r
}

/// The narrowed view a stored-request-replay caller receives.
pub struct ReplayResponse {
    pub status: u16,
    pub headers: Vec<(String, String)>,
    pub body: String,
}

/// Narrows a replay-mode result to the replay wire shape: when a real HTTP
/// exchange completed — success or an upstream error status — the caller
/// sees status, headers and the JSON-or-sentinel body; any failure before a
/// response existed is wrapped into the coarse replay-path message, and the
/// engine's own error taxonomy is not forwarded.
pub fn to_replay_response(r: &ExecutionResult) -> (out: Result<ReplayResponse, String>)
    ensures
        out is Ok <==> (r.success || match r.error {
            Some(e) => e.error_type@ == "HTTPStatusError"@,
            None => false,
        }),
        match out {
            Ok(v) => {
                &&& v.status == r.status_code
                &&& v.headers@ == r.response_headers@
                &&& v.body@ == match r.replay_body {
                    Some(b) => match b {
                        ReplayBody::Json(s) => s@,
                        ReplayBody::Sentinel => "{\"raw_body\":\"Unable to parse JSON body\"}"@,
                    },
                    None => r.content@,
                }
            },
            Err(m) => m@ == "Failed to execute request: "@ + match r.error {
                Some(e) => e.message@,
                None => Seq::<char>::empty(),
            },
        },
{
    let completed = r.success || match &r.error {
        Some(e) => e.error_type == String::from_str("HTTPStatusError"),
        None => false,
    };
    if completed {
        let body = match &r.replay_body {
            Some(b) => replay_body_text(b),
            None => r.content.clone(),
        };
        Ok(
            ReplayResponse {
                status: r.status_code,
                headers: clone_pairs(&r.response_headers),
                body,
            },
        )
    } else {
        match &r.error {
            Some(e) => {
                let mut m = String::from_str("Failed to execute request: ");
                m.append(e.message.as_str());
                Err(m)
            },
            None => {
                let m = String::from_str("Failed to execute request: ");
                proof {
                    assert(m@ =~= "Failed to execute request: "@ + Seq::<char>::empty());
                }
                Err(m)
            },
        }
    }
}

} // verus!
