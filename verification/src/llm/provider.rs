//! The values exchanged with a language model.

use vstd::prelude::*;
use crate::outside::{empty_json_object, is_empty_object, json_parse, parse_json};

verus! {

/// One message sent to the model.
#[derive(Debug, Clone)]
pub struct LlmMessage {
    pub role: String,
    pub content: String,
}

/// A tool offered to the model.
#[derive(Debug, Clone)]
pub struct LlmTool {
    pub name: String,
    pub description: String,
    pub parameters: serde_json::Value,
}

/// A tool call the model asked for.
#[derive(Debug)]
pub struct LlmToolCall {
    pub id: String,
    pub name: String,
    pub arguments: serde_json::Value,
}

impl Clone for LlmToolCall {
    fn clone(&self) -> (r: Self)
        ensures
            r == *self,
    {
        LlmToolCall { id: self.id.clone(), name: self.name.clone(), arguments: self.arguments.clone() }
    }
}

/// The arguments of a tool call: the parsed document, or the empty object
/// when the model's text was not JSON.
pub fn arguments_or_empty(parsed: Option<serde_json::Value>) -> (r: serde_json::Value)
    ensures
        parsed matches Some(v) ==> r == v,
        parsed is None ==> is_empty_object(r),
{
    match parsed {
        Some(v) => v,
        None => empty_json_object(),
    }
}

/// The tool call `id` to `name` with the arguments the model wrote as the
/// JSON text `arguments`; the empty object when that text does not parse.
pub fn tool_call_of(id: String, name: String, arguments: &str) -> (r: LlmToolCall)
    ensures
        r.id == id,
        r.name == name,
        json_parse(arguments@) matches Some(v) ==> r.arguments == v,
        json_parse(arguments@) is None ==> is_empty_object(r.arguments),
{
    LlmToolCall { id, name, arguments: arguments_or_empty(parse_json(arguments)) }
}

/// What the model answered.
#[derive(Debug)]
pub struct LlmResponse {
    pub content: Option<String>,
    pub tool_calls: Vec<LlmToolCall>,
    pub reasoning: Option<String>,
}

/// A tool call as the chat-completions API returns it: the arguments are
/// JSON text.
#[derive(Debug, Clone)]
pub struct RawToolCall {
    pub id: String,
    pub name: String,
    pub arguments: String,
}

/// One choice of a chat-completions answer: its message text and tool calls.
#[derive(Debug, Clone)]
pub struct ChatChoice {
    pub content: Option<String>,
    pub tool_calls: Vec<RawToolCall>,
}

/// The error when the API answers without any choice.
pub open spec fn no_choices_message() -> Seq<char> {
    "No choices in LLM response"@
}

/// `c` is the tool call `raw` describes: same id and name, arguments parsed,
/// or the empty object when they do not parse.
pub open spec fn call_from_raw(c: LlmToolCall, raw: RawToolCall) -> bool {
    &&& c.id@ == raw.id@
    &&& c.name@ == raw.name@
    &&& match json_parse(raw.arguments@) {
        Some(v) => c.arguments == v,
        None => is_empty_object(c.arguments),
    }
}

/// The model's answer from the choices of a chat-completions answer: the
/// first choice's text and tool calls, in order, without reasoning; an error
/// when there is no choice.
pub fn response_from_choices(choices: Vec<ChatChoice>) -> (r: Result<LlmResponse, String>)
    ensures
        choices@.len() == 0 ==> (r matches Err(e) && e@ == no_choices_message()),
        choices@.len() > 0 ==> (r matches Ok(resp) && {
            let first = choices@[0];
            &&& resp.content == first.content
            &&& resp.reasoning is None
            &&& resp.tool_calls@.len() == first.tool_calls@.len()
            &&& forall|i: int|
                0 <= i < resp.tool_calls@.len() ==> call_from_raw(
                    #[trigger] resp.tool_calls@[i],
                    first.tool_calls@[i],
                )
        }),
{
    if choices.len() == 0 {
        return Err("No choices in LLM response".to_owned());
    }
    let mut choices = choices;
    let first = choices.remove(0);
    let n = first.tool_calls.len();
    let mut calls: Vec<LlmToolCall> = Vec::new();
    for i in 0..n
        invariant
            n == first.tool_calls@.len(),
            calls@.len() == i,
            forall|k: int| 0 <= k < i ==> call_from_raw(#[trigger] calls@[k], first.tool_calls@[k]),
    {
        let raw = &first.tool_calls[i];
        calls.push(tool_call_of(raw.id.clone(), raw.name.clone(), raw.arguments.as_str()));
    }
    Ok(LlmResponse { content: first.content, tool_calls: calls, reasoning: None })
}

} // verus!
