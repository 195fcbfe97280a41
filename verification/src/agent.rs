//! The agent's ReAct loop (think, act, observe, adapt) as a state machine.
//!
//! The agent decides; its driver performs what it decides (a model call or a
//! tool call) and hands the outcome back as an event, until the agent finishes.

use vstd::prelude::*;
use crate::evolution::error_collector::{is_new_record, ErrorCollector};
use crate::llm::provider::{LlmMessage, LlmResponse, LlmTool, LlmToolCall};
use crate::memory::working::{compressed, estimated_tokens, llm_message_of, WorkingMemory};
use crate::outside::{json_text, json_to_string};
use crate::text::{
    chars_of, decimal, join, join_chars, lowercase, push_decimal, seq_contains, str_contains,
    string_from_chars, to_lowercase, trim, trim_chars,
};
use crate::tools::registry::{enabled_defs, ToolDef, ToolRegistry};
use crate::types::{plain_message, ErrorRecord, Message, MessageView, Role, ToolResult};

verus! {

broadcast use vstd::string::group_string_axioms;

/// The number of iterations an agent runs at most unless told otherwise.
pub const MAX_ITERATIONS: usize = 50;

/// How many recent messages survive a compression of working memory.
pub const KEEP_RECENT: usize = 20;

/// A step of the agent, reported while it runs.
#[derive(Debug, Clone)]
pub enum StepEvent {
    /// The model said something.
    Thinking(String),
    /// A tool is about to be called.
    CallingTool { name: String, call_id: String },
    /// A tool call ended.
    ToolResult { name: String, success: bool },
    /// The model gave a final text, with the statistics of the run so far.
    Done { result: String, iterations: usize, tool_calls: usize },
}

/// A step event as plain values.
pub enum StepView {
    Thinking(Seq<char>),
    CallingTool { name: Seq<char>, call_id: Seq<char> },
    ToolResult { name: Seq<char>, success: bool },
    Done { result: Seq<char>, iterations: usize, tool_calls: usize },
}

impl View for StepEvent {
    type V = StepView;

    open spec fn view(&self) -> StepView {
        match self {
            StepEvent::Thinking(t) => StepView::Thinking(t@),
            StepEvent::CallingTool { name, call_id } => StepView::CallingTool {
                name: name@,
                call_id: call_id@,
            },
            StepEvent::ToolResult { name, success } => StepView::ToolResult {
                name: name@,
                success: *success,
            },
            StepEvent::Done { result, iterations, tool_calls } => StepView::Done {
                result: result@,
                iterations: *iterations,
                tool_calls: *tool_calls,
            },
        }
    }
}

/// Where the agent stands in its loop.
#[derive(Debug, Clone, Copy, PartialEq, Eq, Structural)]
pub enum AgentPhase {
    /// Not started.
    Idle,
    /// Waiting for the model's answer.
    AwaitingLlm,
    /// Waiting for the outcome of a tool call.
    AwaitingTool,
    /// Done; the result has been given.
    Finished,
}

/// What the driver reports back to the agent.
#[derive(Debug)]
pub enum AgentEvent {
    /// The model answered.
    LlmReplied(LlmResponse),
    /// The model could not be reached or answered with an error; the text
    /// is the cause.
    LlmFailed(String),
    /// The tool call asked for has ended.
    ToolFinished(ToolResult),
}

/// What the agent asks the driver to do next.
#[derive(Debug)]
pub enum AgentAction {
    /// Call the model with these messages and tools.
    CallLlm { messages: Vec<LlmMessage>, tools: Vec<LlmTool> },
    /// Call this tool.
    CallTool(LlmToolCall),
    /// Stop, with this result or error.
    Finish(Result<String, String>),
}

/// The events to report and the next action.
#[derive(Debug)]
pub struct AgentStep {
    pub events: Vec<StepEvent>,
    pub action: AgentAction,
}

/// The agent's state as plain values.
pub struct AgentView {
    pub memory: Seq<MessageView>,
    pub max_tokens: usize,
    pub errors: Seq<ErrorRecord>,
    pub threshold: u32,
    pub tools: Seq<ToolDef>,
    pub session_id: Seq<char>,
    pub max_iterations: usize,
    pub current_step: usize,
    pub tool_call_count: usize,
    pub phase: AgentPhase,
    pub iteration: usize,
    pub pending: Seq<LlmToolCall>,
    pub next_call: usize,
    pub thought: Option<Seq<char>>,
}

/// The beginning of the system prompt, up to the list of tools.
pub open spec fn prompt_head() -> Seq<char> {
    "你是盘古，一个能真正干活的AI Agent。\n\n核心原则：\n1. 直接执行任务，不废话\n2. 每个行动都要有明确目的\n3. 工具执行后必须评估结果\n\n可用工具："@
}

/// The end of the system prompt, after the list of tools.
pub open spec fn prompt_tail() -> Seq<char> {
    "\n\n每次行动遵循 ReAct 循环：\n1. Think: 分析当前状态，决定下一步\n2. Act: 调用工具（如果需要）\n3. Observe: 评估工具结果\n4. Adapt: 成功则继续，失败则调整策略\n\n当任务完成时，明确回复\"任务完成\"或\"Done\"。"@
}

/// The names of `defs`, in order.
pub open spec fn def_names(defs: Seq<ToolDef>) -> Seq<Seq<char>> {
    defs.map_values(|d: ToolDef| d.name@)
}

/// The system prompt listing the enabled tools of `tools`.
pub open spec fn system_prompt(tools: Seq<ToolDef>) -> Seq<char> {
    prompt_head() + join(def_names(enabled_defs(tools)), ", "@) + prompt_tail()
}

/// `tools` offers the model exactly the definitions `defs`.
pub open spec fn offers(tools: Seq<LlmTool>, defs: Seq<ToolDef>) -> bool {
    &&& tools.len() == defs.len()
    &&& forall|i: int|
        0 <= i < tools.len() ==> {
            &&& #[trigger] tools[i].name@ == defs[i].name@
            &&& tools[i].description@ == defs[i].description@
            &&& tools[i].parameters == defs[i].parameters
        }
}

/// `msgs` is what the model is sent for working memory `mem`.
pub open spec fn sends(msgs: Seq<LlmMessage>, mem: Seq<MessageView>) -> bool {
    &&& msgs.len() == mem.len()
    &&& forall|i: int|
        0 <= i < msgs.len() ==> (#[trigger] msgs[i].role@, msgs[i].content@) == llm_message_of(
            mem[i],
        )
}

/// Working memory at the start of an iteration: compressed to the most recent
/// messages when the estimate exceeds 70% of the budget.
pub open spec fn iteration_memory(mem: Seq<MessageView>, max_tokens: usize) -> Seq<MessageView> {
    if estimated_tokens(mem) > max_tokens * 70 / 100 {
        compressed(mem, KEEP_RECENT as nat)
    } else {
        mem
    }
}

/// The text recorded in working memory for a tool call.
pub open spec fn tool_call_note(call: LlmToolCall) -> Seq<char> {
    "Tool call: "@ + call.name@ + " with args "@ + json_text(call.arguments)
}

/// Working memory after announcing `call`: the model's thought, if any, then
/// the note of the call.
pub open spec fn dispatch_memory(
    mem: Seq<MessageView>,
    thought: Option<Seq<char>>,
    call: LlmToolCall,
) -> Seq<MessageView> {
    let with_thought = match thought {
        Some(t) => mem.push(plain_message(Role::Assistant, t)),
        None => mem,
    };
    with_thought.push(plain_message(Role::Assistant, tool_call_note(call)))
}

/// A text reply that declares the task complete.
pub open spec fn declares_done(text: Seq<char>) -> bool {
    let l = lowercase(text);
    seq_contains(l, "任务完成"@) || seq_contains(l, "done"@) || seq_contains(l, "完成"@)
}

/// The error of a failed model call with cause `cause`: the context
/// `LLM call failed` followed by the cause.
pub open spec fn llm_failure_message(cause: Seq<char>) -> Seq<char> {
    "LLM call failed: "@ + cause
}

/// The error given when the iterations run out.
pub open spec fn max_iterations_message(max: usize) -> Seq<char> {
    "Max iterations ("@ + decimal(max as nat) + ") reached"@
}

/// The error text recorded for a failed tool result.
pub open spec fn failure_text(result: ToolResult) -> Seq<char> {
    match result.error {
        Some(e) => e@,
        None => "Unknown error"@,
    }
}

/// The outcome of a step as plain values.
pub enum ActionView {
    CallLlm,
    CallTool(LlmToolCall),
    Finish(Result<Seq<char>, Seq<char>>),
}

impl View for AgentAction {
    type V = ActionView;

    open spec fn view(&self) -> ActionView {
        match self {
            AgentAction::CallLlm { .. } => ActionView::CallLlm,
            AgentAction::CallTool(c) => ActionView::CallTool(*c),
            AgentAction::Finish(Ok(s)) => ActionView::Finish(Ok(s@)),
            AgentAction::Finish(Err(s)) => ActionView::Finish(Err(s@)),
        }
    }
}

/// The same agent except for its loop position, memory, errors and counters.
pub open spec fn same_setup(a: AgentView, b: AgentView) -> bool {
    &&& a.max_tokens == b.max_tokens
    &&& a.threshold == b.threshold
    &&& a.tools == b.tools
    &&& a.session_id == b.session_id
    &&& a.max_iterations == b.max_iterations
}

/// Opening iteration `i` from state `pre` gives `post` and `action`: past the
/// last iteration the run fails; otherwise working memory is compressed if
/// needed and the model is called with all of it and the enabled tools.
pub open spec fn opens(pre: AgentView, i: int, post: AgentView, action: AgentAction) -> bool {
    &&& same_setup(pre, post)
    &&& post.errors == pre.errors
    &&& post.tool_call_count == pre.tool_call_count
    &&& if i >= pre.max_iterations {
        &&& post.phase == AgentPhase::Finished
        &&& post.memory == pre.memory
        &&& post.current_step == pre.current_step
        &&& action@ == ActionView::Finish(Err(max_iterations_message(pre.max_iterations)))
    } else {
        &&& post.phase == AgentPhase::AwaitingLlm
        &&& post.iteration == i
        &&& post.current_step == i + 1
        &&& post.memory == iteration_memory(pre.memory, pre.max_tokens)
        &&& action matches AgentAction::CallLlm { messages, tools }
        &&& sends(messages@, post.memory)
        &&& offers(tools@, enabled_defs(pre.tools))
    }
}

/// Announcing pending call `k` from `pre` gives `post`, the event `ev` and
/// the action: the thought and the call are noted, the call counted.
pub open spec fn dispatches(pre: AgentView, k: int, post: AgentView, ev: StepView, action: AgentAction) -> bool {
    let call = pre.pending[k];
    &&& same_setup(pre, post)
    &&& post.errors == pre.errors
    &&& post.phase == AgentPhase::AwaitingTool
    &&& post.iteration == pre.iteration
    &&& post.current_step == pre.current_step
    &&& post.pending == pre.pending
    &&& post.thought == pre.thought
    &&& post.next_call == k
    &&& post.tool_call_count == pre.tool_call_count + 1
    &&& post.memory == dispatch_memory(pre.memory, pre.thought, call)
    &&& ev == StepView::CallingTool { name: call.name@, call_id: call.id@ }
    &&& action@ == ActionView::CallTool(call)
}

/// The event announcing `call`.
pub open spec fn calling(call: LlmToolCall) -> StepView {
    StepView::CallingTool { name: call.name@, call_id: call.id@ }
}

/// The thinking event for a reply, if it has text.
pub open spec fn thinking(resp: LlmResponse) -> Seq<StepView> {
    match resp.content {
        Some(c) => seq![StepView::Thinking(c@)],
        None => Seq::empty(),
    }
}

/// The state change a model reply `resp` makes, from `pre` to `post`, with
/// the events `evs` and the next action.
pub open spec fn on_reply(pre: AgentView, resp: LlmResponse, post: AgentView, evs: Seq<StepView>, action: AgentAction) -> bool {
    let think = thinking(resp);
    if resp.tool_calls@.len() > 0 {
        let mid = AgentView {
            pending: resp.tool_calls@,
            thought: match resp.content {
                Some(c) => Some(c@),
                None => None,
            },
            ..pre
        };
        &&& dispatches(mid, 0, post, calling(mid.pending[0]), action)
        &&& evs == think.push(calling(mid.pending[0]))
    } else if resp.content is Some {
        let text = trim(resp.content->0@);
        let mem = pre.memory.push(plain_message(Role::Assistant, text));
        let done = StepView::Done {
            result: text,
            iterations: pre.current_step,
            tool_calls: pre.tool_call_count,
        };
        let replied = AgentView { memory: mem, ..pre };
        &&& evs == think.push(done)
        &&& if declares_done(text) || pre.iteration == pre.max_iterations - 1 {
            &&& post == AgentView { phase: AgentPhase::Finished, ..replied }
            &&& action@ == ActionView::Finish(Ok(text))
        } else {
            opens(replied, pre.iteration + 1, post, action)
        }
    } else {
        &&& evs == think
        &&& post == AgentView { phase: AgentPhase::Finished, ..pre }
        &&& action@ == ActionView::Finish(Err("Empty LLM response"@))
    }
}

/// The state change the end of the pending call makes, with result `result`.
pub open spec fn on_tool_result(pre: AgentView, result: ToolResult, post: AgentView, evs: Seq<StepView>, action: AgentAction) -> bool {
    let call = pre.pending[pre.next_call as int];
    let mem = pre.memory.push(plain_message(Role::Tool, result.output@));
    let ended = StepView::ToolResult { name: call.name@, success: result.success };
    let k = pre.next_call + 1;
    exists|errs: Seq<ErrorRecord>| {
        &&& #[trigger] recorded(pre.errors, errs, pre.session_id, call, result)
        &&& {
            let observed = AgentView { memory: mem, errors: errs, ..pre };
            if k < pre.pending.len() {
                &&& dispatches(observed, k, post, calling(pre.pending[k]), action)
                &&& evs == seq![ended, calling(pre.pending[k])]
            } else {
                &&& opens(observed, pre.iteration + 1, post, action)
                &&& evs == seq![ended]
            }
        }
    }
}

/// `post` is `errors` after noting the outcome of `call`: a failure adds a new
/// record of kind `tool_error_<name>` for the task `tool:<name>`.
pub open spec fn recorded(errors: Seq<ErrorRecord>, post: Seq<ErrorRecord>, session_id: Seq<char>, call: LlmToolCall, result: ToolResult) -> bool {
    if result.success {
        post == errors
    } else {
        &&& post.len() == errors.len() + 1
        &&& post.drop_last() == errors
        &&& is_new_record(
            post.last(),
            session_id,
            "tool:"@ + call.name@,
            "tool_error_"@ + call.name@,
            failure_text(result),
            result.output@,
        )
    }
}

/// One step of a run: from `pre`, waiting on the model or a tool, some outcome
/// of that call leads to `post`.
pub open spec fn advances(pre: AgentView, post: AgentView) -> bool {
    ||| (pre.phase == AgentPhase::AwaitingLlm && exists|
        resp: LlmResponse,
        evs: Seq<StepView>,
        action: AgentAction,
    | #[trigger] on_reply(pre, resp, post, evs, action))
    ||| (pre.phase == AgentPhase::AwaitingLlm && post == AgentView {
        phase: AgentPhase::Finished,
        ..pre
    })
    ||| (pre.phase == AgentPhase::AwaitingTool && exists|
        result: ToolResult,
        evs: Seq<StepView>,
        action: AgentAction,
    | #[trigger] on_tool_result(pre, result, post, evs, action))
}

/// The number of model calls asked for along the states `vs` of a run: the
/// states that wait on the model.
pub open spec fn llm_calls(vs: Seq<AgentView>) -> nat
    decreases vs.len(),
{
    if vs.len() == 0 {
        0
    } else {
        llm_calls(vs.drop_last()) + if vs.last().phase == AgentPhase::AwaitingLlm {
            1nat
        } else {
            0nat
        }
    }
}

/// Whether the driver may report `event` to an agent in state `a`.
pub open spec fn accepts(a: AgentView, event: AgentEvent) -> bool {
    &&& match event {
        AgentEvent::LlmReplied(_) => a.phase == AgentPhase::AwaitingLlm,
        AgentEvent::LlmFailed(_) => a.phase == AgentPhase::AwaitingLlm,
        AgentEvent::ToolFinished(_) => a.phase == AgentPhase::AwaitingTool,
    }
    &&& a.tool_call_count < usize::MAX
}

/// The agent: its memory, tools and error collector, and where it stands in
/// its loop.
pub struct Agent {
    tools: ToolRegistry,
    working_memory: WorkingMemory,
    error_collector: ErrorCollector,
    session_id: String,
    max_iterations: usize,
    current_step: usize,
    tool_call_count: usize,
    phase: AgentPhase,
    iteration: usize,
    pending: Vec<LlmToolCall>,
    next_call: usize,
    thought: Option<String>,
}

impl View for Agent {
    type V = AgentView;

    closed spec fn view(&self) -> AgentView {
        AgentView {
            memory: self.working_memory@,
            max_tokens: self.working_memory.spec_max_tokens(),
            errors: self.error_collector.errors(),
            threshold: self.error_collector.threshold(),
            tools: self.tools.defs(),
            session_id: self.session_id@,
            max_iterations: self.max_iterations,
            current_step: self.current_step,
            tool_call_count: self.tool_call_count,
            phase: self.phase,
            iteration: self.iteration,
            pending: self.pending@,
            next_call: self.next_call,
            thought: match self.thought {
                Some(t) => Some(t@),
                None => None,
            },
        }
    }
}

/// The state invariant: in a tool wait, the pending call exists, and an
/// iteration in progress is one of the allowed ones.
pub open spec fn agent_wf(a: AgentView) -> bool {
    &&& a.phase == AgentPhase::AwaitingTool ==> a.next_call < a.pending.len()
    &&& (a.phase == AgentPhase::AwaitingTool || a.phase == AgentPhase::AwaitingLlm) ==> a.iteration
        < a.max_iterations
}

impl Agent {
    /// A new agent for session `session_id` with the given tools and working
    /// memory; it may run `MAX_ITERATIONS` iterations.
    pub fn new(tools: ToolRegistry, working_memory: WorkingMemory, session_id: &str) -> (r: Self)
        ensures
            r@.tools == tools.defs(),
            r@.memory == working_memory@,
            r@.max_tokens == working_memory.spec_max_tokens(),
            r@.errors == Seq::<ErrorRecord>::empty(),
            r@.session_id == session_id@,
            r@.max_iterations == MAX_ITERATIONS,
            r@.current_step == 0,
            r@.tool_call_count == 0,
            r@.phase == AgentPhase::Idle,
            agent_wf(r@),
    {
        Agent {
            tools,
            working_memory,
            error_collector: ErrorCollector::new(),
            session_id: session_id.to_owned(),
            max_iterations: MAX_ITERATIONS,
            current_step: 0,
            tool_call_count: 0,
            phase: AgentPhase::Idle,
            iteration: 0,
            pending: Vec::new(),
            next_call: 0,
            thought: None,
        }
    }

    /// The same agent recording failures in `ec`.
    pub fn with_error_collector(self, ec: ErrorCollector) -> (r: Self)
        requires
            agent_wf(self@),
        ensures
            r@ == (AgentView { errors: ec.errors(), threshold: ec.threshold(), ..self@ }),
            agent_wf(r@),
    {
        Agent { error_collector: ec, ..self }
    }

    /// The same agent allowed `max` iterations.
    pub fn with_max_iterations(self, max: usize) -> (r: Self)
        requires
            self@.phase == AgentPhase::Idle || self@.phase == AgentPhase::Finished,
            agent_wf(self@),
        ensures
            r@ == (AgentView { max_iterations: max, ..self@ }),
            agent_wf(r@),
    {
        Agent { max_iterations: max, ..self }
    }

    /// The number of the iteration in progress, or of the last one.
    pub fn current_step(&self) -> (r: usize)
        ensures
            r == self@.current_step,
    {
        self.current_step
    }

    /// The number of tool calls made so far.
    pub fn tool_call_count(&self) -> (r: usize)
        ensures
            r == self@.tool_call_count,
    {
        self.tool_call_count
    }

    /// The error collector.
    pub fn error_collector(&self) -> (r: &ErrorCollector)
        ensures
            r.errors() == self@.errors,
            r.threshold() == self@.threshold,
    {
        &self.error_collector
    }

    /// The working memory.
    pub fn working_memory(&self) -> (r: &WorkingMemory)
        ensures
            r@ == self@.memory,
            r.spec_max_tokens() == self@.max_tokens,
    {
        &self.working_memory
    }

    /// The system prompt: the agent's principles, the enabled tools, and the
    /// ReAct loop it follows.
    pub fn build_system_prompt(&self) -> (r: String)
        ensures
            r@ == system_prompt(self@.tools),
    {
        let enabled = self.tools.list_enabled();
        let mut names: Vec<Vec<char>> = Vec::new();
        let n = enabled.len();
        for i in 0..n
            invariant
                n == enabled@.len(),
                names@.map_values(|l: Vec<char>| l@) == def_names(enabled@.take(i as int)),
        {
            let ghost before = names@.map_values(|l: Vec<char>| l@);
            names.push(chars_of(enabled[i].name.as_str()));
            assert(names@.map_values(|l: Vec<char>| l@) =~= before.push(enabled@[i as int].name@));
            assert(def_names(enabled@.take(i + 1)) =~= def_names(enabled@.take(i as int)).push(
                enabled@[i as int].name@,
            ));
        }
        assert(enabled@.take(n as int) =~= enabled@);
        let sep = chars_of(", ");
        let joined = join_chars(&names, &sep);
        let mut r = String::new();
        r.append(
            "你是盘古，一个能真正干活的AI Agent。\n\n核心原则：\n1. 直接执行任务，不废话\n2. 每个行动都要有明确目的\n3. 工具执行后必须评估结果\n\n可用工具：",
        );
        r.append(string_from_chars(joined.as_slice()).as_str());
        r.append(
            "\n\n每次行动遵循 ReAct 循环：\n1. Think: 分析当前状态，决定下一步\n2. Act: 调用工具（如果需要）\n3. Observe: 评估工具结果\n4. Adapt: 成功则继续，失败则调整策略\n\n当任务完成时，明确回复\"任务完成\"或\"Done\"。",
        );
        r
    }

    /// The enabled tools, as offered to the model.
    pub fn build_tool_defs(&self) -> (r: Vec<LlmTool>)
        ensures
            offers(r@, enabled_defs(self@.tools)),
    {
        let enabled = self.tools.list_enabled();
        let n = enabled.len();
        let mut out: Vec<LlmTool> = Vec::new();
        let mut i: usize = 0;
        while i < n
            invariant
                n == enabled@.len(),
                i <= n,
                out@.len() == i,
                forall|k: int|
                    0 <= k < i ==> {
                        &&& #[trigger] out@[k].name@ == enabled@[k].name@
                        &&& out@[k].description@ == enabled@[k].description@
                        &&& out@[k].parameters == enabled@[k].parameters
                    },
            decreases n - i,
        {
            let t = &enabled[i];
            let tool = LlmTool {
                name: t.name.clone(),
                description: t.description.clone(),
                parameters: t.parameters.clone(),
            };
            out.push(tool);
            i += 1;
        }
        out
    }

    /// Opens iteration `i`.
    fn open_iteration(&mut self, i: usize) -> (action: AgentAction)
        ensures
            opens(old(self)@, i as int, final(self)@, action),
            final(self)@.pending == old(self)@.pending,
            final(self)@.next_call == old(self)@.next_call,
            final(self)@.thought == old(self)@.thought,
            i >= old(self)@.max_iterations ==> final(self)@.iteration == old(self)@.iteration,
    {
        if i >= self.max_iterations {
            self.phase = AgentPhase::Finished;
            let mut msg = String::new();
            msg.append("Max iterations (");
            push_decimal(&mut msg, self.max_iterations as u128);
            msg.append(") reached");
            return AgentAction::Finish(Err(msg));
        }
        self.current_step = i + 1;
        self.iteration = i;
        if self.working_memory.needs_compression() {
            self.working_memory.compress(KEEP_RECENT);
        }
        self.phase = AgentPhase::AwaitingLlm;
        let messages = self.working_memory.to_llm_messages();
        let tools = self.build_tool_defs();
        AgentAction::CallLlm { messages, tools }
    }

    /// Announces pending call `k` and asks for it.
    fn dispatch(&mut self, k: usize) -> (r: (StepEvent, AgentAction))
        requires
            k < old(self)@.pending.len(),
            old(self)@.tool_call_count < usize::MAX,
        ensures
            dispatches(old(self)@, k as int, final(self)@, r.0@, r.1),
    {
        let call = self.pending[k].clone();
        match &self.thought {
            Some(t) => {
                let m = Message::assistant(t.as_str());
                self.working_memory.push(m);
            },
            None => {},
        }
        let args = json_to_string(&call.arguments);
        let mut note = String::new();
        note.append("Tool call: ");
        note.append(call.name.as_str());
        note.append(" with args ");
        note.append(args.as_str());
        self.working_memory.push(Message::assistant(note.as_str()));
        self.tool_call_count = self.tool_call_count + 1;
        self.next_call = k;
        self.phase = AgentPhase::AwaitingTool;
        let ev = StepEvent::CallingTool { name: call.name.clone(), call_id: call.id.clone() };
        (ev, AgentAction::CallTool(call))
    }

    /// Starts the run on `task`: the system prompt and the task are added to
    /// working memory and the first iteration is opened.
    pub fn start(&mut self, task: &str) -> (r: AgentStep)
        requires
            agent_wf(old(self)@),
        ensures
            r.events@.len() == 0,
            opens(
                AgentView {
                    memory: old(self)@.memory.push(
                        plain_message(Role::System, system_prompt(old(self)@.tools)),
                    ).push(plain_message(Role::User, task@)),
                    ..old(self)@
                },
                0,
                final(self)@,
                r.action,
            ),
            agent_wf(final(self)@),
    {
        let prompt = self.build_system_prompt();
        self.working_memory.push(Message::system(prompt.as_str()));
        self.working_memory.push(Message::user(task));
        let action = self.open_iteration(0);
        AgentStep { events: Vec::new(), action }
    }

    /// Takes in what the driver reports and decides the next step.
    pub fn handle(&mut self, event: AgentEvent) -> (r: AgentStep)
        requires
            agent_wf(old(self)@),
            accepts(old(self)@, event),
        ensures
            agent_wf(final(self)@),
            advances(old(self)@, final(self)@),
            r.events@.map_values(|e: StepEvent| e@) == match event {
                AgentEvent::LlmReplied(resp) => thinking(resp),
                _ => Seq::<StepView>::empty(),
            } + r.events@.map_values(|e: StepEvent| e@).skip(match event {
                AgentEvent::LlmReplied(resp) => thinking(resp).len() as int,
                _ => 0,
            }),
            match event {
                AgentEvent::LlmReplied(resp) => on_reply(
                    old(self)@,
                    resp,
                    final(self)@,
                    r.events@.map_values(|e: StepEvent| e@),
                    r.action,
                ),
                AgentEvent::LlmFailed(cause) => {
                    &&& final(self)@ == (AgentView { phase: AgentPhase::Finished, ..old(self)@ })
                    &&& r.events@.len() == 0
                    &&& r.action@ == ActionView::Finish(Err(llm_failure_message(cause@)))
                },
                AgentEvent::ToolFinished(result) => on_tool_result(
                    old(self)@,
                    result,
                    final(self)@,
                    r.events@.map_values(|e: StepEvent| e@),
                    r.action,
                ),
            },
    {
        match event {
            AgentEvent::LlmFailed(cause) => {
                self.phase = AgentPhase::Finished;
                let mut m = String::new();
                m.append("LLM call failed: ");
                m.append(cause.as_str());
                AgentStep { events: Vec::new(), action: AgentAction::Finish(Err(m)) }
            },
            AgentEvent::LlmReplied(resp) => self.on_llm_reply(resp),
            AgentEvent::ToolFinished(result) => self.on_tool_finished(result),
        }
    }

    fn on_llm_reply(&mut self, resp: LlmResponse) -> (r: AgentStep)
        requires
            agent_wf(old(self)@),
            old(self)@.phase == AgentPhase::AwaitingLlm,
            old(self)@.tool_call_count < usize::MAX,
        ensures
            agent_wf(final(self)@),
            r.events@.map_values(|e: StepEvent| e@) == thinking(resp) + r.events@.map_values(
                |e: StepEvent| e@,
            ).skip(thinking(resp).len() as int),
            on_reply(old(self)@, resp, final(self)@, r.events@.map_values(|e: StepEvent| e@), r.action),
    {
        let ghost resp0 = resp;
        let mut events: Vec<StepEvent> = Vec::new();
        match &resp.content {
            Some(c) => events.push(StepEvent::Thinking(c.clone())),
            None => {},
        }
        assert(events@.map_values(|e: StepEvent| e@) =~= thinking(resp0));
        let LlmResponse { content, tool_calls, reasoning: _ } = resp;
        if tool_calls.len() > 0 {
            self.pending = tool_calls;
            self.thought = content;
            let ghost mid = self@;
            assert(mid == AgentView {
                pending: resp0.tool_calls@,
                thought: match resp0.content {
                    Some(c) => Some(c@),
                    None => None,
                },
                ..old(self)@
            });
            let (ev, action) = self.dispatch(0);
            let ghost before = events@.map_values(|e: StepEvent| e@);
            events.push(ev);
            assert(events@.map_values(|e: StepEvent| e@) =~= before.push(ev@));
            assert(dispatches(mid, 0, self@, ev@, action));
            assert(events@.map_values(|e: StepEvent| e@) == thinking(resp0).push(ev@));
            assert(resp0.tool_calls@.len() > 0);
            assert(events@.map_values(|e: StepEvent| e@).skip(thinking(resp0).len() as int) =~= seq![ev@]);
            return AgentStep { events, action };
        }
        match content {
            Some(c) => {
                let cs = chars_of(c.as_str());
                let tv = trim_chars(&cs);
                let text = string_from_chars(tv.as_slice());
                self.working_memory.push(Message::assistant(text.as_str()));
                let ghost before = events@.map_values(|e: StepEvent| e@);
                let done = StepEvent::Done {
                    result: text.clone(),
                    iterations: self.current_step,
                    tool_calls: self.tool_call_count,
                };
                events.push(done);
                assert(events@.map_values(|e: StepEvent| e@) =~= before.push(done@));
                assert(events@.map_values(|e: StepEvent| e@).skip(thinking(resp0).len() as int) =~= seq![done@]);
                let lower = to_lowercase(text.as_str());
                if str_contains(lower.as_str(), "任务完成") || str_contains(lower.as_str(), "done")
                    || str_contains(lower.as_str(), "完成") {
                    self.phase = AgentPhase::Finished;
                    return AgentStep { events, action: AgentAction::Finish(Ok(text)) };
                }
                if self.iteration == self.max_iterations - 1 {
                    self.phase = AgentPhase::Finished;
                    return AgentStep { events, action: AgentAction::Finish(Ok(text)) };
                }
                let action = self.open_iteration(self.iteration + 1);
                AgentStep { events, action }
            },
            None => {
                self.phase = AgentPhase::Finished;
                assert(events@.map_values(|e: StepEvent| e@).skip(0) =~= events@.map_values(|e: StepEvent| e@));
                AgentStep {
                    events,
                    action: AgentAction::Finish(Err("Empty LLM response".to_owned())),
                }
            },
        }
    }

    fn on_tool_finished(&mut self, result: ToolResult) -> (r: AgentStep)
        requires
            agent_wf(old(self)@),
            old(self)@.phase == AgentPhase::AwaitingTool,
            old(self)@.tool_call_count < usize::MAX,
        ensures
            agent_wf(final(self)@),
            on_tool_result(old(self)@, result, final(self)@, r.events@.map_values(|e: StepEvent| e@), r.action),
    {
        let ghost pre = self@;
        let k = self.next_call;
        assert(k < self.pending@.len());
        let npending = self.pending.len();
        let name = self.pending[k].name.clone();
        let call_id = self.pending[k].id.clone();
        let mut events: Vec<StepEvent> = Vec::new();
        let ended = StepEvent::ToolResult { name: name.clone(), success: result.success };
        events.push(ended);
        self.working_memory.push(Message::tool(call_id.as_str(), result.output.as_str()));
        if !result.success {
            let mut task = String::new();
            task.append("tool:");
            task.append(name.as_str());
            let mut kind = String::new();
            kind.append("tool_error_");
            kind.append(name.as_str());
            let text = match &result.error {
                Some(e) => e.as_str(),
                None => "Unknown error",
            };
            let rec = self.error_collector.record(
                self.session_id.as_str(),
                task.as_str(),
                kind.as_str(),
                text,
                result.output.as_str(),
            );
            assert(self.error_collector.errors().drop_last() =~= pre.errors);
            assert(self.error_collector.errors().last() == rec);
        }
        let ghost observed = self@;
        assert(recorded(pre.errors, observed.errors, pre.session_id, pre.pending[k as int], result));
        if k < npending - 1 {
            let (ev, action) = self.dispatch(k + 1);
            events.push(ev);
            assert(events@.map_values(|e: StepEvent| e@) =~= seq![ended@, ev@]);
            assert(dispatches(observed, k + 1, self@, ev@, action));
            AgentStep { events, action }
        } else {
            let action = self.open_iteration(self.iteration + 1);
            assert(events@.map_values(|e: StepEvent| e@) =~= seq![ended@]);
            AgentStep { events, action }
        }
    }
}

// ---------------------------------------------------------------------------
// Laws
// ---------------------------------------------------------------------------

/// The model is only ever called within the allowed iterations: when an
/// iteration is opened with a model call, its step number is its index plus
/// one and at most `max_iterations`.
pub proof fn law_iterations_bounded(pre: AgentView, i: int, post: AgentView, action: AgentAction)
    requires
        opens(pre, i, post, action),
        i >= 0,
        action is CallLlm,
    ensures
        post.current_step == i + 1,
        post.current_step <= post.max_iterations,
        post.phase == AgentPhase::AwaitingLlm,
{
}

/// Every tool call is announced and counted once: the count of calls grows
/// by one, the announcement names the call asked for, and working memory
/// ends with the note of the call.
pub proof fn law_tool_calls_counted(pre: AgentView, k: int, post: AgentView, ev: StepView, action: AgentAction)
    requires
        dispatches(pre, k, post, ev, action),
    ensures
        post.tool_call_count == pre.tool_call_count + 1,
        action@ == ActionView::CallTool(pre.pending[k]),
        ev == calling(pre.pending[k]),
        post.memory.last() == plain_message(Role::Assistant, tool_call_note(pre.pending[k])),
        post.memory.len() == pre.memory.len() + if pre.thought is Some { 2int } else { 1int },
{
}

/// A text reply that declares the task complete ends the run with that text,
/// trimmed, as its result; the reply is kept in working memory.
pub proof fn law_done_reply_finishes(pre: AgentView, resp: LlmResponse, post: AgentView, evs: Seq<StepView>, action: AgentAction)
    requires
        on_reply(pre, resp, post, evs, action),
        resp.tool_calls@.len() == 0,
        resp.content is Some,
        declares_done(trim(resp.content->0@)),
    ensures
        action@ == ActionView::Finish(Ok(trim(resp.content->0@))),
        post.phase == AgentPhase::Finished,
        post.memory == pre.memory.push(plain_message(Role::Assistant, trim(resp.content->0@))),
{
}

/// The loop makes progress: each model reply either ends the run, starts
/// the first of its tool calls in the same iteration, or opens a later
/// iteration (or ends the run when none is left).
pub proof fn law_reply_progress(pre: AgentView, resp: LlmResponse, post: AgentView, evs: Seq<StepView>, action: AgentAction)
    requires
        on_reply(pre, resp, post, evs, action),
    ensures
        post.phase == AgentPhase::Finished
            || (post.phase == AgentPhase::AwaitingTool && post.iteration == pre.iteration && post.next_call == 0)
            || (post.phase == AgentPhase::AwaitingLlm && post.iteration == pre.iteration + 1),
{
}

/// The loop makes progress: each tool result either starts the next tool
/// call of the same reply or opens a later iteration (or ends the run when
/// none is left).
pub proof fn law_tool_result_progress(pre: AgentView, result: ToolResult, post: AgentView, evs: Seq<StepView>, action: AgentAction)
    requires
        on_tool_result(pre, result, post, evs, action),
    ensures
        post.phase == AgentPhase::Finished
            || (post.phase == AgentPhase::AwaitingTool && post.iteration == pre.iteration && post.next_call == pre.next_call + 1)
            || (post.phase == AgentPhase::AwaitingLlm && post.iteration == pre.iteration + 1),
{
}

/// A failed tool call is recorded for the evolution engine under the kind
/// `tool_error_<name>`; a successful one leaves the records as they are.
pub proof fn law_failures_recorded(pre: AgentView, result: ToolResult, post: AgentView, evs: Seq<StepView>, action: AgentAction)
    requires
        on_tool_result(pre, result, post, evs, action),
    ensures
        result.success ==> post.errors == pre.errors,
        !result.success ==> {
            &&& post.errors.drop_last() == pre.errors
            &&& post.errors.last().error_type@ == "tool_error_"@ + pre.pending[pre.next_call as int].name@
            &&& post.errors.last().attempts == 1
            &&& !post.errors.last().resolved
            &&& post.errors.last().task@ == "tool:"@ + pre.pending[pre.next_call as int].name@
            &&& post.errors.last().session_id@ == pre.session_id
            &&& post.errors.last().context@ == result.output@
            &&& post.errors.last().error_message@ == match result.error {
                Some(m) => m@,
                None => "Unknown error"@,
            }
        },
{
    let errs = choose|errs: Seq<ErrorRecord>| #[trigger] recorded(pre.errors, errs, pre.session_id, pre.pending[pre.next_call as int], result) && {
        let observed = AgentView { memory: pre.memory.push(plain_message(Role::Tool, result.output@)), errors: errs, ..pre };
        if pre.next_call + 1 < pre.pending.len() {
            &&& dispatches(observed, pre.next_call + 1, post, calling(pre.pending[pre.next_call + 1]), action)
            &&& evs == seq![StepView::ToolResult { name: pre.pending[pre.next_call as int].name@, success: result.success }, calling(pre.pending[pre.next_call + 1])]
        } else {
            &&& opens(observed, pre.iteration + 1, post, action)
            &&& evs == seq![StepView::ToolResult { name: pre.pending[pre.next_call as int].name@, success: result.success }]
        }
    };
}

/// Where a run stands after the states `vs`, started from `pre` by opening
/// its first iteration: the limit and step bounds hold, and while waiting
/// the number of model calls is the current iteration plus one.
pub open spec fn run_bounded(pre: AgentView, vs: Seq<AgentView>) -> bool {
    let last = vs.last();
    &&& last.max_iterations == pre.max_iterations
    &&& llm_calls(vs) <= pre.max_iterations
    &&& last.current_step <= pre.max_iterations
    &&& (last.phase == AgentPhase::AwaitingLlm || last.phase == AgentPhase::AwaitingTool) ==> {
        &&& llm_calls(vs) == last.iteration + 1
        &&& last.iteration < last.max_iterations
        &&& last.current_step == last.iteration + 1
    }
}

/// One step of a run keeps the iteration limit; it either finishes, moves to
/// a tool call in the same iteration, or opens the next iteration, which is
/// within the limit.
proof fn lemma_advance(pre: AgentView, post: AgentView)
    requires
        advances(pre, post),
        pre.iteration < pre.max_iterations,
        pre.current_step == pre.iteration + 1,
    ensures
        post.max_iterations == pre.max_iterations,
        post.phase == AgentPhase::Finished ==> post.current_step == pre.current_step,
        post.phase == AgentPhase::AwaitingTool ==> post.iteration == pre.iteration && post.current_step
            == pre.current_step,
        post.phase == AgentPhase::AwaitingLlm ==> post.iteration == pre.iteration + 1
            && post.current_step == post.iteration + 1 && post.iteration < post.max_iterations,
        post.phase != AgentPhase::Idle,
{
}

/// A run asks the model at most `max_iterations` times, whatever it
/// answers and whatever the tools return, and its step number never exceeds
/// that limit: for the states `vs` of a run started by opening the first
/// iteration from `pre`, each later state reached from the one before by an
/// outcome of the call it waited on.
pub proof fn law_run_bounded(pre: AgentView, action: AgentAction, vs: Seq<AgentView>)
    requires
        vs.len() > 0,
        opens(pre, 0, vs[0], action),
        pre.current_step <= pre.max_iterations,
        forall|j: int| 0 <= j < vs.len() - 1 ==> #[trigger] advances(vs[j], vs[j + 1]),
    ensures
        llm_calls(vs) <= pre.max_iterations,
        forall|j: int| 0 <= j < vs.len() ==> (#[trigger] vs[j]).current_step <= pre.max_iterations,
        run_bounded(pre, vs),
    decreases vs.len(),
{
    if vs.len() == 1 {
        assert(vs.drop_last() =~= Seq::<AgentView>::empty());
        assert(llm_calls(Seq::<AgentView>::empty()) == 0);
        assert(vs.last() == vs[0]);
    } else {
        let prefix = vs.drop_last();
        assert forall|j: int| 0 <= j < prefix.len() - 1 implies #[trigger] advances(
            prefix[j],
            prefix[j + 1],
        ) by {
            assert(advances(vs[j], vs[j + 1]));
        }
        law_run_bounded(pre, action, prefix);
        let before = prefix.last();
        let last = vs.last();
        let k = vs.len() - 2;
        assert(advances(vs[k], vs[k + 1]));
        assert(before == vs[k]);
        assert(last == vs[k + 1]);
        lemma_advance(before, last);
        assert forall|j: int| 0 <= j < vs.len() implies (#[trigger] vs[j]).current_step
            <= pre.max_iterations by {
            if j < vs.len() - 1 {
                assert(vs[j] == prefix[j]);
            }
        }
    }
}

/// In the last allowed iteration a text reply ends the run with that text,
/// trimmed, whether or not it says the task is done.
pub proof fn law_last_text_reply_ends(pre: AgentView, resp: LlmResponse, post: AgentView, evs: Seq<StepView>, action: AgentAction)
    requires
        on_reply(pre, resp, post, evs, action),
        resp.tool_calls@.len() == 0,
        resp.content is Some,
        pre.iteration == pre.max_iterations - 1,
    ensures
        action@ == ActionView::Finish(Ok(trim(resp.content->0@))),
        post.phase == AgentPhase::Finished,
{
}

/// When the last tool call of the last allowed iteration ends, the run fails
/// with the iteration limit's error.
pub proof fn law_last_tool_result_ends(pre: AgentView, result: ToolResult, post: AgentView, evs: Seq<StepView>, action: AgentAction)
    requires
        on_tool_result(pre, result, post, evs, action),
        pre.next_call + 1 >= pre.pending.len(),
        pre.iteration == pre.max_iterations - 1,
    ensures
        action@ == ActionView::Finish(Err(max_iterations_message(pre.max_iterations))),
        post.phase == AgentPhase::Finished,
{
}

/// A step of a run in which the model always asks for tools: a reply with
/// tool calls, or the end of a tool call.
pub open spec fn tool_step(pre: AgentView, post: AgentView, action: AgentAction) -> bool {
    ||| (pre.phase == AgentPhase::AwaitingLlm && exists|resp: LlmResponse, evs: Seq<StepView>|
        resp.tool_calls@.len() > 0 && #[trigger] on_reply(pre, resp, post, evs, action))
    ||| (pre.phase == AgentPhase::AwaitingTool && exists|result: ToolResult, evs: Seq<StepView>|
        #[trigger] on_tool_result(pre, result, post, evs, action))
}

/// A step of a run in which the model answers `resp`, a text that does not
/// say the task is done.
pub open spec fn text_step(pre: AgentView, resp: LlmResponse, post: AgentView, action: AgentAction) -> bool {
    &&& pre.phase == AgentPhase::AwaitingLlm
    &&& resp.tool_calls@.len() == 0
    &&& resp.content is Some
    &&& !declares_done(trim(resp.content->0@))
    &&& exists|evs: Seq<StepView>| #[trigger] on_reply(pre, resp, post, evs, action)
}

/// The last step of a tool-calls-only run: it can only end when the last
/// call of the last allowed iteration returns, with the limit's error.
proof fn lemma_tool_step(pre: AgentView, post: AgentView, action: AgentAction)
    requires
        tool_step(pre, post, action),
        pre.iteration < pre.max_iterations,
    ensures
        advances(pre, post),
        post.phase == AgentPhase::Finished ==> pre.phase == AgentPhase::AwaitingTool
            && pre.iteration + 1 == pre.max_iterations && action@ == ActionView::Finish(
            Err(max_iterations_message(pre.max_iterations)),
        ),
{
}

/// The last step of a run of unfinished texts: it ends exactly in the last
/// allowed iteration, with the text, trimmed.
proof fn lemma_text_step(pre: AgentView, resp: LlmResponse, post: AgentView, action: AgentAction)
    requires
        text_step(pre, resp, post, action),
        pre.iteration < pre.max_iterations,
    ensures
        advances(pre, post),
        post.phase == AgentPhase::Finished ==> pre.iteration + 1 == pre.max_iterations
            && action@ == ActionView::Finish(Ok(trim(resp.content->0@))),
        post.phase != AgentPhase::Finished ==> post.phase == AgentPhase::AwaitingLlm,
{
}

/// A run whose every model reply asks for tools ends, once it ends, with
/// the error `Max iterations (n) reached`, after exactly `n` model calls,
/// `n` being the limit: `vs` are its states and `acts` the actions asked for,
/// the first ones from opening the first iteration from `pre`.
pub proof fn law_tool_run_exhausts(pre: AgentView, vs: Seq<AgentView>, acts: Seq<AgentAction>)
    requires
        vs.len() > 0,
        acts.len() == vs.len(),
        opens(pre, 0, vs[0], acts[0]),
        pre.current_step <= pre.max_iterations,
        forall|j: int| 0 <= j < vs.len() - 1 ==> #[trigger] tool_step(vs[j], vs[j + 1], acts[j + 1]),
        vs.last().phase == AgentPhase::Finished,
    ensures
        llm_calls(vs) == pre.max_iterations,
        acts.last()@ == ActionView::Finish(Err(max_iterations_message(pre.max_iterations))),
{
    if vs.len() == 1 {
        assert(vs.drop_last() =~= Seq::<AgentView>::empty());
        assert(llm_calls(Seq::<AgentView>::empty()) == 0);
        assert(vs.last() == vs[0]);
    } else {
        let k = vs.len() - 2;
        let prefix = vs.drop_last();
        assert forall|j: int| 0 <= j < prefix.len() - 1 implies #[trigger] advances(
            prefix[j],
            prefix[j + 1],
        ) by {
            assert(tool_step(vs[j], vs[j + 1], acts[j + 1]));
            lemma_tool_step_advances(vs[j], vs[j + 1], acts[j + 1]);
        }
        law_run_bounded(pre, acts[0], prefix);
        assert(prefix.last() == vs[k]);
        assert(tool_step(vs[k], vs[k + 1], acts[k + 1]));
        lemma_tool_step_advances(vs[k], vs[k + 1], acts[k + 1]);
        assert(vs[k].phase == AgentPhase::AwaitingLlm || vs[k].phase == AgentPhase::AwaitingTool);
        lemma_tool_step(vs[k], vs[k + 1], acts[k + 1]);
        assert(vs.last() == vs[k + 1]);
        assert(acts.last() == acts[k + 1]);
    }
}

/// A tool-calls step is a step of a run.
proof fn lemma_tool_step_advances(pre: AgentView, post: AgentView, action: AgentAction)
    requires
        tool_step(pre, post, action),
    ensures
        advances(pre, post),
{
}

/// A run whose every model reply is a text not saying the task is done
/// ends, once it ends, with the last of those texts, trimmed, after exactly
/// `n` model calls, `n >= 1` being the limit: `vs` are its states, `resps`
/// the replies and `acts` the actions asked for.
pub proof fn law_text_run_exhausts(
    pre: AgentView,
    vs: Seq<AgentView>,
    resps: Seq<LlmResponse>,
    acts: Seq<AgentAction>,
)
    requires
        vs.len() > 1,
        acts.len() == vs.len(),
        resps.len() == vs.len() - 1,
        pre.max_iterations >= 1,
        opens(pre, 0, vs[0], acts[0]),
        pre.current_step <= pre.max_iterations,
        forall|j: int| 0 <= j < vs.len() - 1 ==> #[trigger] text_step(vs[j], resps[j], vs[j + 1], acts[j + 1]),
        vs.last().phase == AgentPhase::Finished,
    ensures
        llm_calls(vs) == pre.max_iterations,
        acts.last()@ == ActionView::Finish(Ok(trim(resps.last().content->0@))),
{
    let k = vs.len() - 2;
    let prefix = vs.drop_last();
    assert forall|j: int| 0 <= j < prefix.len() - 1 implies #[trigger] advances(
        prefix[j],
        prefix[j + 1],
    ) by {
        assert(text_step(vs[j], resps[j], vs[j + 1], acts[j + 1]));
    }
    law_run_bounded(pre, acts[0], prefix);
    assert(prefix.last() == vs[k]);
    assert(text_step(vs[k], resps[k], vs[k + 1], acts[k + 1]));
    lemma_text_step(vs[k], resps[k], vs[k + 1], acts[k + 1]);
    assert(vs.last() == vs[k + 1]);
    assert(acts.last() == acts[k + 1]);
    assert(resps.last() == resps[k]);
}

/// A text reply saying the task is done ends the run, in any iteration, with
/// the reply trimmed as the result, kept in working memory: the reply is done
/// when its trimmed, lower-cased text contains `完成`, `任务完成` or `done`.
pub proof fn law_done_words_finish(pre: AgentView, resp: LlmResponse, post: AgentView, evs: Seq<StepView>, action: AgentAction)
    requires
        on_reply(pre, resp, post, evs, action),
        resp.tool_calls@.len() == 0,
        resp.content is Some,
        seq_contains(lowercase(trim(resp.content->0@)), "完成"@) || seq_contains(
            lowercase(trim(resp.content->0@)),
            "任务完成"@,
        ) || seq_contains(lowercase(trim(resp.content->0@)), "done"@),
    ensures
        action@ == ActionView::Finish(Ok(trim(resp.content->0@))),
        post.phase == AgentPhase::Finished,
        post.memory == pre.memory.push(plain_message(Role::Assistant, trim(resp.content->0@))),
{
}

/// A text reply that does not say the task is done (its trimmed, lower-cased
/// text contains none of `完成`, `任务完成`, `done`) does not end the run
/// before the last iteration: the next iteration is opened with a model call.
pub proof fn law_other_text_continues(pre: AgentView, resp: LlmResponse, post: AgentView, evs: Seq<StepView>, action: AgentAction)
    requires
        on_reply(pre, resp, post, evs, action),
        resp.tool_calls@.len() == 0,
        resp.content is Some,
        !seq_contains(lowercase(trim(resp.content->0@)), "完成"@),
        !seq_contains(lowercase(trim(resp.content->0@)), "任务完成"@),
        !seq_contains(lowercase(trim(resp.content->0@)), "done"@),
        pre.iteration + 1 < pre.max_iterations,
    ensures
        action is CallLlm,
        post.phase == AgentPhase::AwaitingLlm,
        post.iteration == pre.iteration + 1,
{
}

} // verus!
