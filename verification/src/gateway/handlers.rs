//! What the gateway's handlers answer, apart from the HTTP work.

use vstd::prelude::*;
use crate::agent::{StepEvent, StepView};
use crate::gateway::models::{RunResponse, SessionInfo};
use crate::gateway::state::{key_cuts_ok, mask_key_with, masked_key};
use crate::memory::working::{estimated_tokens, WorkingMemory};
use crate::outside::is_hyphenated_uuid;
use crate::types::SessionId;

verus! {

broadcast use vstd::string::group_string_axioms;

/// The API key as the LLM settings show it: empty stays empty, a key of at
/// most eight bytes becomes `********`, any other is masked.
pub fn display_api_key(key: &str) -> (r: String)
    requires
        key_cuts_ok(key@),
    ensures
        key@.len() == 0 ==> r@.len() == 0,
        key@.len() > 0 ==> r@ == masked_key(key@, "********"@),
{
    if key.is_empty() {
        String::new()
    } else {
        mask_key_with(key, "********")
    }
}

/// The answer to a run of session `session_id` that ended with `outcome`: the
/// result of the session, or an agent error without a session.
pub fn run_response(session_id: String, outcome: Result<String, String>) -> (r: RunResponse)
    ensures
        outcome matches Ok(res) ==> {
            &&& r.session_id == session_id
            &&& r.result == res
            &&& r.iterations == 1
            &&& r.tool_calls == 0
        },
        outcome matches Err(e) ==> {
            &&& r.session_id@.len() == 0
            &&& r.result@ == "agent error: "@ + e@
            &&& r.iterations == 0
            &&& r.tool_calls == 0
        },
{
    match outcome {
        Ok(result) => RunResponse { session_id, result, iterations: 1, tool_calls: 0 },
        Err(e) => {
            let mut m = String::new();
            m.append("agent error: ");
            m.append(e.as_str());
            RunResponse { session_id: String::new(), result: m, iterations: 0, tool_calls: 0 }
        },
    }
}

/// The session a run request is for: the one it names, or a fresh one.
pub fn requested_session_id(requested: Option<String>) -> (r: String)
    ensures
        requested matches Some(s) ==> r == s,
        requested is None ==> is_hyphenated_uuid(r@),
{
    match requested {
        Some(s) => s,
        None => SessionId::new().0,
    }
}

/// What is known of session `session_id` with working memory `memory`.
pub fn session_info(session_id: String, memory: &WorkingMemory) -> (r: SessionInfo)
    ensures
        r.session_id == session_id,
        r.message_count == memory@.len(),
        r.token_estimate == estimated_tokens(memory@),
{
    SessionInfo {
        session_id,
        message_count: memory.len(),
        token_estimate: memory.estimate_tokens(),
    }
}

/// The name and data of the server-sent event for a step.
pub fn sse_event(step: &StepEvent) -> (r: (String, String))
    ensures
        match step {
            StepEvent::Thinking(t) => r.0@ == "thinking"@ && r.1@ == t@,
            StepEvent::CallingTool { name, .. } => r.0@ == "tool_call"@ && r.1@ == name@,
            StepEvent::ToolResult { name, success } => r.0@ == "tool_result"@ && r.1@ == name@
                + ": "@ + if *success {
                "ok"@
            } else {
                "failed"@
            },
            StepEvent::Done { result, .. } => r.0@ == "done"@ && r.1@ == result@,
        },
{
    match step {
        StepEvent::Thinking(t) => ("thinking".to_owned(), t.clone()),
        StepEvent::CallingTool { name, .. } => ("tool_call".to_owned(), name.clone()),
        StepEvent::ToolResult { name, success } => {
            let mut d = String::new();
            d.append(name.as_str());
            d.append(": ");
            if *success {
                d.append("ok");
            } else {
                d.append("failed");
            }
            ("tool_result".to_owned(), d)
        },
        StepEvent::Done { result, .. } => ("done".to_owned(), result.clone()),
    }
}

/// The last event of a streamed run that ended with `outcome` after
/// `iterations` iterations and `tool_calls` tool calls: the result with those
/// statistics, or the error with none.
pub fn stream_done(outcome: Result<String, String>, iterations: usize, tool_calls: usize) -> (r: StepEvent)
    ensures
        outcome matches Ok(res) ==> (r@ == (StepView::Done { result: res@, iterations, tool_calls })),
        outcome matches Err(e) ==> (r@ == (StepView::Done {
            result: "error: "@ + e@,
            iterations: 0,
            tool_calls: 0,
        })),
{
    match outcome {
        Ok(result) => StepEvent::Done { result, iterations, tool_calls },
        Err(e) => {
            let mut m = String::new();
            m.append("error: ");
            m.append(e.as_str());
            StepEvent::Done { result: m, iterations: 0, tool_calls: 0 }
        },
    }
}

/// The only event of a streamed run whose session could not be made, for
/// the error `e`.
pub fn session_error_done(e: &str) -> (r: StepEvent)
    ensures
        r@ == (StepView::Done { result: "session error: "@ + e@, iterations: 0, tool_calls: 0 }),
{
    let mut m = String::new();
    m.append("session error: ");
    m.append(e);
    StepEvent::Done { result: m, iterations: 0, tool_calls: 0 }
}

} // verus!
