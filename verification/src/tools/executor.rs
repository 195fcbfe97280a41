//! Tool executor: what a call of a tool comes to, given how it ended.

use vstd::prelude::*;
use crate::text::{decimal, push_decimal};
use crate::types::ToolResult;

verus! {

broadcast use vstd::string::group_string_axioms;

/// How a tool call ended.
#[derive(Debug)]
pub enum ToolOutcome {
    /// No tool of that name is registered.
    NotFound,
    /// The tool produced this output.
    Output(String),
    /// The tool failed with this error.
    Failed(String),
    /// The tool did not finish in time.
    TimedOut,
}

/// Runs tools with a time limit.
pub struct ToolExecutor {
    default_timeout_secs: u64,
}

/// The error of a call of an unknown tool.
pub open spec fn not_found_message(name: Seq<char>) -> Seq<char> {
    "Tool '"@ + name + "' not found in registry"@
}

/// The error of a call that failed with `e`.
pub open spec fn execution_error_message(e: Seq<char>) -> Seq<char> {
    "Tool execution error: "@ + e
}

/// The error of a call that ran out of time.
pub open spec fn timeout_message(name: Seq<char>, secs: u64) -> Seq<char> {
    "Tool '"@ + name + "' timed out after "@ + decimal(secs as nat) + "s"@
}

impl ToolExecutor {
    /// The time limit, in seconds.
    pub closed spec fn timeout_secs(&self) -> u64 {
        self.default_timeout_secs
    }

    /// An executor with a time limit of 30 seconds.
    pub fn new() -> (r: Self)
        ensures
            r.timeout_secs() == 30,
    {
        ToolExecutor { default_timeout_secs: 30 }
    }

    /// The same executor with a time limit of `secs` seconds.
    pub fn with_timeout(self, secs: u64) -> (r: Self)
        ensures
            r.timeout_secs() == secs,
    {
        ToolExecutor { default_timeout_secs: secs }
    }

    /// The time limit, in seconds.
    pub fn timeout(&self) -> (r: u64)
        ensures
            r == self.timeout_secs(),
    {
        self.default_timeout_secs
    }

    /// The result of call `call_id` of tool `name` that ended with `outcome`
    /// after `elapsed_ms` milliseconds (an unknown tool takes no time).
    pub fn result_of(&self, name: &str, call_id: String, outcome: ToolOutcome, elapsed_ms: u64) -> (r: ToolResult)
        ensures
            r.call_id == call_id,
            match outcome {
                ToolOutcome::NotFound => {
                    &&& !r.success
                    &&& r.output@.len() == 0
                    &&& (r.error matches Some(e) && e@ == not_found_message(name@))
                    &&& r.duration_ms == 0
                },
                ToolOutcome::Output(o) => {
                    &&& r.success
                    &&& r.output == o
                    &&& r.error is None
                    &&& r.duration_ms == elapsed_ms
                },
                ToolOutcome::Failed(e) => {
                    &&& !r.success
                    &&& r.output@.len() == 0
                    &&& (r.error matches Some(m) && m@ == execution_error_message(e@))
                    &&& r.duration_ms == elapsed_ms
                },
                ToolOutcome::TimedOut => {
                    &&& !r.success
                    &&& r.output@.len() == 0
                    &&& (r.error matches Some(m) && m@ == timeout_message(name@, self.timeout_secs()))
                    &&& r.duration_ms == elapsed_ms
                },
            },
    {
        match outcome {
            ToolOutcome::NotFound => {
                let mut m = String::new();
                m.append("Tool '");
                m.append(name);
                m.append("' not found in registry");
                ToolResult::err(call_id, m, 0)
            },
            ToolOutcome::Output(o) => ToolResult::ok(call_id, o, elapsed_ms),
            ToolOutcome::Failed(e) => {
                let mut m = String::new();
                m.append("Tool execution error: ");
                m.append(e.as_str());
                ToolResult::err(call_id, m, elapsed_ms)
            },
            ToolOutcome::TimedOut => {
                let mut m = String::new();
                m.append("Tool '");
                m.append(name);
                m.append("' timed out after ");
                push_decimal(&mut m, self.default_timeout_secs as u128);
                m.append("s");
                ToolResult::err(call_id, m, elapsed_ms)
            },
        }
    }
}

} // verus!
