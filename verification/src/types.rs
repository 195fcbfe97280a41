//! The library's core data types.

use vstd::prelude::*;
use crate::outside::{is_hyphenated_uuid, is_rfc3339_utc, new_uuid_string, now_rfc3339};

verus! {

/// A session identifier.
#[derive(Debug, Clone)]
pub struct SessionId(pub String);

impl SessionId {
    /// A fresh random session identifier.
    pub fn new() -> (r: Self)
        ensures
            is_hyphenated_uuid(r.0@),
    {
        SessionId(new_uuid_string())
    }
}

impl Default for SessionId {
    fn default() -> (r: Self)
        ensures
            is_hyphenated_uuid(r.0@),
    {
        Self::new()
    }
}

/// A request to call a tool.
#[derive(Debug)]
pub struct ToolCall {
    pub id: String,
    pub name: String,
    pub arguments: serde_json::Value,
    /// RFC 3339 time of creation.
    pub created_at: String,
}

impl ToolCall {
    /// A new call of tool `name` with a fresh random identifier.
    pub fn new(name: String, arguments: serde_json::Value) -> (r: Self)
        ensures
            is_hyphenated_uuid(r.id@),
            r.name == name,
            r.arguments == arguments,
            is_rfc3339_utc(r.created_at@),
    {
        ToolCall { id: new_uuid_string(), name, arguments, created_at: now_rfc3339() }
    }
}

impl Clone for ToolCall {
    fn clone(&self) -> (r: Self)
        ensures
            r == *self,
    {
        ToolCall {
            id: self.id.clone(),
            name: self.name.clone(),
            arguments: self.arguments.clone(),
            created_at: self.created_at.clone(),
        }
    }
}

/// The outcome of one tool execution.
#[derive(Debug)]
pub struct ToolResult {
    pub call_id: String,
    pub success: bool,
    pub output: String,
    pub error: Option<String>,
    pub duration_ms: u64,
}

impl ToolResult {
    /// A successful result carrying `output`.
    pub fn ok(call_id: String, output: String, duration_ms: u64) -> (r: Self)
        ensures
            r.call_id == call_id,
            r.success,
            r.output == output,
            r.error is None,
            r.duration_ms == duration_ms,
    {
        ToolResult { call_id, success: true, output, error: None, duration_ms }
    }

    /// A failed result carrying `error` and an empty output.
    pub fn err(call_id: String, error: String, duration_ms: u64) -> (r: Self)
        ensures
            r.call_id == call_id,
            !r.success,
            r.output@ == Seq::<char>::empty(),
            r.error == Some(error),
            r.duration_ms == duration_ms,
    {
        ToolResult { call_id, success: false, output: String::new(), error: Some(error), duration_ms }
    }
}

impl Clone for ToolResult {
    fn clone(&self) -> (r: Self)
        ensures
            r == *self,
    {
        ToolResult {
            call_id: self.call_id.clone(),
            success: self.success,
            output: self.output.clone(),
            error: match &self.error {
                Some(e) => Some(e.clone()),
                None => None,
            },
            duration_ms: self.duration_ms,
        }
    }
}

/// The layer of memory an entry belongs to.
#[derive(Debug, Clone, Copy, PartialEq, Eq, Structural)]
pub enum MemoryType {
    Working,
    Episodic,
    Semantic,
}

/// A failed execution, as the evolution engine records it.
#[derive(Debug)]
pub struct ErrorRecord {
    pub id: String,
    pub session_id: String,
    pub task: String,
    pub error_type: String,
    pub error_message: String,
    pub context: String,
    pub attempts: u32,
    pub resolved: bool,
    /// RFC 3339 time of creation.
    pub created_at: String,
}

impl ErrorRecord {
    /// A first, unresolved failure with a fresh random identifier.
    pub fn new(session_id: &str, task: &str, error_type: &str, error_message: &str, context: &str) -> (r: Self)
        ensures
            is_hyphenated_uuid(r.id@),
            r.session_id@ == session_id@,
            r.task@ == task@,
            r.error_type@ == error_type@,
            r.error_message@ == error_message@,
            r.context@ == context@,
            r.attempts == 1,
            !r.resolved,
            is_rfc3339_utc(r.created_at@),
    {
        ErrorRecord {
            id: new_uuid_string(),
            session_id: session_id.to_owned(),
            task: task.to_owned(),
            error_type: error_type.to_owned(),
            error_message: error_message.to_owned(),
            context: context.to_owned(),
            attempts: 1,
            resolved: false,
            created_at: now_rfc3339(),
        }
    }

    /// One more attempt at the failing task.
    pub fn increment_attempt(&mut self)
        requires
            old(self).attempts < u32::MAX,
        ensures
            *final(self) == (ErrorRecord { attempts: (old(self).attempts + 1) as u32, ..*old(self) }),
    {
        self.attempts = self.attempts + 1;
    }
}

impl Clone for ErrorRecord {
    fn clone(&self) -> (r: Self)
        ensures
            r == *self,
    {
        ErrorRecord {
            id: self.id.clone(),
            session_id: self.session_id.clone(),
            task: self.task.clone(),
            error_type: self.error_type.clone(),
            error_message: self.error_message.clone(),
            context: self.context.clone(),
            attempts: self.attempts,
            resolved: self.resolved,
            created_at: self.created_at.clone(),
        }
    }
}

/// Who speaks in a message.
#[derive(Debug, Clone, Copy, PartialEq, Eq, Structural)]
pub enum Role {
    System,
    User,
    Assistant,
    Tool,
}

/// A message of the conversation held in working memory.
#[derive(Debug)]
pub struct Message {
    pub role: Role,
    pub content: String,
    pub tool_calls: Option<Vec<ToolCall>>,
    pub tool_results: Option<Vec<ToolResult>>,
}

/// What a message holds, as plain values.
pub struct MessageView {
    pub role: Role,
    pub content: Seq<char>,
    pub tool_calls: Option<Seq<ToolCall>>,
    pub tool_results: Option<Seq<ToolResult>>,
}

impl View for Message {
    type V = MessageView;

    open spec fn view(&self) -> MessageView {
        MessageView {
            role: self.role,
            content: self.content@,
            tool_calls: match self.tool_calls {
                Some(v) => Some(v@),
                None => None,
            },
            tool_results: match self.tool_results {
                Some(v) => Some(v@),
                None => None,
            },
        }
    }
}

/// A plain message of `role` with text `content`.
pub open spec fn plain_message(role: Role, content: Seq<char>) -> MessageView {
    MessageView { role, content, tool_calls: None, tool_results: None }
}

impl Message {
    fn plain(role: Role, content: &str) -> (r: Self)
        ensures
            r@ == plain_message(role, content@),
    {
        Message { role, content: content.to_owned(), tool_calls: None, tool_results: None }
    }

    pub fn system(content: &str) -> (r: Self)
        ensures
            r@ == plain_message(Role::System, content@),
    {
        Self::plain(Role::System, content)
    }

    pub fn user(content: &str) -> (r: Self)
        ensures
            r@ == plain_message(Role::User, content@),
    {
        Self::plain(Role::User, content)
    }

    pub fn assistant(content: &str) -> (r: Self)
        ensures
            r@ == plain_message(Role::Assistant, content@),
    {
        Self::plain(Role::Assistant, content)
    }

    /// The result of tool call `call_id`; the identifier is not kept.
    pub fn tool(call_id: &str, content: &str) -> (r: Self)
        ensures
            r@ == plain_message(Role::Tool, content@),
    {
        Self::plain(Role::Tool, content)
    }
}

impl Clone for Message {
    fn clone(&self) -> (r: Self)
        ensures
            r@ == self@,
    {
        Message {
            role: self.role,
            content: self.content.clone(),
            tool_calls: match &self.tool_calls {
                Some(v) => Some(clone_tool_calls(v)),
                None => None,
            },
            tool_results: match &self.tool_results {
                Some(v) => Some(clone_tool_results(v)),
                None => None,
            },
        }
    }
}

fn clone_tool_calls(v: &Vec<ToolCall>) -> (r: Vec<ToolCall>)
    ensures
        r@ == v@,
{
    let mut r: Vec<ToolCall> = Vec::new();
    let n = v.len();
    for i in 0..n
        invariant
            n == v@.len(),
            r@ == v@.take(i as int),
    {
        r.push(v[i].clone());
        assert(v@.take(i + 1) =~= v@.take(i as int).push(v@[i as int]));
    }
    assert(v@.take(n as int) =~= v@);
    r
}

fn clone_tool_results(v: &Vec<ToolResult>) -> (r: Vec<ToolResult>)
    ensures
        r@ == v@,
{
    let mut r: Vec<ToolResult> = Vec::new();
    let n = v.len();
    for i in 0..n
        invariant
            n == v@.len(),
            r@ == v@.take(i as int),
    {
        r.push(v[i].clone());
        assert(v@.take(i + 1) =~= v@.take(i as int).push(v@[i as int]));
    }
    assert(v@.take(n as int) =~= v@);
    r
}

/// A response of the agent.
#[derive(Debug, Clone)]
pub enum AgentResponse {
    Text(String),
    ToolCall(ToolCall),
    Done(String),
    Error(String),
}

/// The state of a task.
#[derive(Debug, Clone, Copy, PartialEq, Eq, Structural)]
pub enum TaskStatus {
    Pending,
    InProgress,
    Done,
    Failed,
}

/// A task and its subtasks.
#[derive(Debug)]
pub struct Task {
    pub id: String,
    pub description: String,
    pub status: TaskStatus,
    pub subtasks: Vec<Task>,
    /// RFC 3339 time of creation.
    pub created_at: String,
}

impl Task {
    /// A new pending task without subtasks.
    pub fn new(description: &str) -> (r: Self)
        ensures
            is_hyphenated_uuid(r.id@),
            r.description@ == description@,
            r.status == TaskStatus::Pending,
            r.subtasks@.len() == 0,
            is_rfc3339_utc(r.created_at@),
    {
        Task {
            id: new_uuid_string(),
            description: description.to_owned(),
            status: TaskStatus::Pending,
            subtasks: Vec::new(),
            created_at: now_rfc3339(),
        }
    }
}

/// A skill generated by the evolution engine.
#[derive(Debug, Clone)]
pub struct Skill {
    pub id: String,
    pub name: String,
    pub description: String,
    pub source_code: String,
    pub tool_name: String,
    pub parameters: serde_json::Value,
    pub success_count: u32,
    pub failure_count: u32,
    /// RFC 3339 time of creation.
    pub created_at: String,
    /// RFC 3339 time of last use, if any.
    pub last_used: Option<String>,
}

impl Skill {
    /// A new, unused skill with a fresh random identifier.
    pub fn new(name: &str, description: &str, source_code: &str, tool_name: &str, parameters: serde_json::Value) -> (r: Self)
        ensures
            is_hyphenated_uuid(r.id@),
            r.name@ == name@,
            r.description@ == description@,
            r.source_code@ == source_code@,
            r.tool_name@ == tool_name@,
            r.parameters == parameters,
            r.success_count == 0,
            r.failure_count == 0,
            r.last_used is None,
            is_rfc3339_utc(r.created_at@),
    {
        Skill {
            id: new_uuid_string(),
            name: name.to_owned(),
            description: description.to_owned(),
            source_code: source_code.to_owned(),
            tool_name: tool_name.to_owned(),
            parameters,
            success_count: 0,
            failure_count: 0,
            created_at: now_rfc3339(),
            last_used: None,
        }
    }
}

} // verus!
