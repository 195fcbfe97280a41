use pangu_agent::agent::{Agent, AgentAction, AgentEvent, AgentStep, StepEvent, MAX_ITERATIONS};
use pangu_agent::llm::provider::{LlmResponse, LlmToolCall};
use pangu_agent::memory::working::WorkingMemory;
use pangu_agent::tools::registry::ToolRegistry;
use pangu_agent::types::{Role, ToolResult};

fn registry() -> ToolRegistry {
    let mut r = ToolRegistry::new();
    r.register_dynamic("shell", "run", serde_json::Value::Null).unwrap();
    r.register_dynamic("web", "fetch", serde_json::Value::Null).unwrap();
    r.disable("web");
    r
}

fn reply(content: Option<&str>, calls: Vec<LlmToolCall>) -> AgentEvent {
    AgentEvent::LlmReplied(LlmResponse { content: content.map(|c| c.to_string()), tool_calls: calls, reasoning: None })
}

fn call(id: &str, name: &str) -> LlmToolCall {
    let mut m = serde_json::Map::new();
    m.insert("command".to_string(), serde_json::Value::String("ls".to_string()));
    LlmToolCall { id: id.to_string(), name: name.to_string(), arguments: serde_json::Value::Object(m) }
}

fn finish(step: &AgentStep) -> Option<Result<String, String>> {
    match &step.action {
        AgentAction::Finish(r) => Some(r.clone()),
        _ => None,
    }
}

#[test]
fn start_sends_system_prompt_and_task() {
    let mut a = Agent::new(registry(), WorkingMemory::new(128_000), "sess");
    let step = a.start("do it");
    assert!(step.events.is_empty());
    match &step.action {
        AgentAction::CallLlm { messages, tools } => {
            assert_eq!(messages.len(), 2);
            assert_eq!(messages[0].role, "system");
            assert!(messages[0].content.contains("可用工具：shell\n"));
            assert!(messages[0].content.starts_with("你是盘古"));
            assert_eq!(messages[1].role, "user");
            assert_eq!(messages[1].content, "do it");
            assert_eq!(tools.len(), 1);
            assert_eq!(tools[0].name, "shell");
        }
        _ => panic!("expected a model call"),
    }
    assert_eq!(a.current_step(), 1);
}

#[test]
fn done_reply_finishes_with_trimmed_text() {
    let mut a = Agent::new(registry(), WorkingMemory::new(128_000), "sess");
    a.start("t");
    let step = a.handle(reply(Some("  All DONE.  "), vec![]));
    assert_eq!(finish(&step), Some(Ok("All DONE.".to_string())));
    assert_eq!(step.events.len(), 2);
    assert!(matches!(&step.events[0], StepEvent::Thinking(t) if t == "  All DONE.  "));
    assert!(matches!(&step.events[1], StepEvent::Done { result, iterations: 1, tool_calls: 0 } if result == "All DONE."));
    let mem = a.working_memory().messages();
    assert_eq!(mem.last().unwrap().content, "All DONE.");
    assert_eq!(mem.last().unwrap().role, Role::Assistant);
}

#[test]
fn chinese_completion_word_finishes() {
    let mut a = Agent::new(registry(), WorkingMemory::new(128_000), "sess");
    a.start("t");
    let step = a.handle(reply(Some("任务完成"), vec![]));
    assert_eq!(finish(&step), Some(Ok("任务完成".to_string())));
}

#[test]
fn tool_calls_run_then_next_iteration() {
    let mut a = Agent::new(registry(), WorkingMemory::new(128_000), "sess");
    a.start("t");
    let step = a.handle(reply(Some("thinking"), vec![call("c1", "shell"), call("c2", "nope")]));
    assert_eq!(step.events.len(), 2);
    assert!(matches!(&step.events[1], StepEvent::CallingTool { name, call_id } if name == "shell" && call_id == "c1"));
    match &step.action {
        AgentAction::CallTool(c) => assert_eq!(c.id, "c1"),
        _ => panic!("expected a tool call"),
    }
    assert_eq!(a.tool_call_count(), 1);
    let mem = a.working_memory().messages();
    assert_eq!(mem[mem.len() - 2].content, "thinking");
    assert_eq!(mem[mem.len() - 1].content, "Tool call: shell with args {\"command\":\"ls\"}");

    let step = a.handle(AgentEvent::ToolFinished(ToolResult::ok("c1".into(), "files".into(), 3)));
    assert!(matches!(&step.events[0], StepEvent::ToolResult { name, success: true } if name == "shell"));
    assert!(matches!(&step.events[1], StepEvent::CallingTool { name, .. } if name == "nope"));
    assert_eq!(a.tool_call_count(), 2);

    let step = a.handle(AgentEvent::ToolFinished(ToolResult::err("c2".into(), "Tool 'nope' not found in registry".into(), 0)));
    assert_eq!(step.events.len(), 1);
    assert!(matches!(&step.action, AgentAction::CallLlm { .. }));
    assert_eq!(a.current_step(), 2);
    let errors = a.error_collector().recent_errors(10);
    assert_eq!(errors.len(), 1);
    assert_eq!(errors[0].error_type, "tool_error_nope");
    assert_eq!(errors[0].task, "tool:nope");
    assert_eq!(errors[0].session_id, "sess");
    assert_eq!(errors[0].error_message, "Tool 'nope' not found in registry");
}

#[test]
fn failures_and_limits() {
    let mut a = Agent::new(registry(), WorkingMemory::new(128_000), "sess");
    a.start("t");
    assert_eq!(
        finish(&a.handle(AgentEvent::LlmFailed("connection refused".to_string()))),
        Some(Err("LLM call failed: connection refused".to_string()))
    );

    let mut a = Agent::new(registry(), WorkingMemory::new(128_000), "sess");
    a.start("t");
    assert_eq!(finish(&a.handle(reply(None, vec![]))), Some(Err("Empty LLM response".to_string())));

    let mut a = Agent::new(registry(), WorkingMemory::new(128_000), "sess").with_max_iterations(0);
    assert_eq!(finish(&a.start("t")), Some(Err("Max iterations (0) reached".to_string())));

    let mut a = Agent::new(registry(), WorkingMemory::new(128_000), "sess").with_max_iterations(2);
    a.start("t");
    let step = a.handle(reply(Some("still working"), vec![]));
    assert!(matches!(&step.action, AgentAction::CallLlm { .. }));
    let step = a.handle(reply(Some("last words"), vec![]));
    assert_eq!(finish(&step), Some(Ok("last words".to_string())));
    assert_eq!(MAX_ITERATIONS, 50);
}

#[test]
fn system_prompt_and_tool_defs() {
    let a = Agent::new(registry(), WorkingMemory::new(10), "s");
    let p = a.build_system_prompt();
    assert!(p.ends_with("当任务完成时，明确回复\"任务完成\"或\"Done\"。"));
    assert!(p.contains("可用工具：shell\n\n每次行动遵循 ReAct 循环："));
    let defs = a.build_tool_defs();
    assert_eq!(defs.len(), 1);
    assert_eq!(defs[0].description, "run");
}

#[test]
fn compression_happens_between_iterations() {
    let mut a = Agent::new(registry(), WorkingMemory::new(10), "s").with_max_iterations(5);
    a.start("t");
    // the system prompt alone is well over 7 tokens: the first iteration compresses
    let n = a.working_memory().len();
    assert_eq!(n, 2);
    let step = a.handle(reply(Some("keep going"), vec![]));
    assert!(matches!(&step.action, AgentAction::CallLlm { .. }));
    assert_eq!(a.working_memory().len(), 3);
}

/// Drives an agent allowed `max` iterations, answering every model call with
/// `answer`; returns the outcome and the number of model calls.
fn drive(max: usize, answer: &dyn Fn(usize) -> AgentEvent) -> (Result<String, String>, usize, Agent) {
    let mut a = Agent::new(registry(), WorkingMemory::new(128_000), "sess").with_max_iterations(max);
    let mut step = a.start("t");
    let mut calls = 0;
    loop {
        match step.action {
            AgentAction::CallLlm { .. } => {
                calls += 1;
                step = a.handle(answer(calls));
            }
            AgentAction::CallTool(c) => {
                step = a.handle(AgentEvent::ToolFinished(ToolResult::ok(c.id.clone(), "out".to_string(), 1)));
            }
            AgentAction::Finish(r) => return (r, calls, a),
        }
    }
}

#[test]
fn run_with_only_tool_calls_stops_at_the_limit() {
    let (r, calls, a) = drive(3, &|i| reply(None, vec![call(&format!("c{}", i), "shell")]));
    assert_eq!(r, Err("Max iterations (3) reached".to_string()));
    assert_eq!(calls, 3);
    assert_eq!(a.current_step(), 3);
    assert_eq!(a.tool_call_count(), 3);
}

#[test]
fn run_with_only_unfinished_text_ends_with_the_last_text() {
    let (r, calls, a) = drive(4, &|i| reply(Some(&format!("  thinking {}  ", i)), vec![]));
    assert_eq!(r, Ok("thinking 4".to_string()));
    assert_eq!(calls, 4);
    assert_eq!(a.current_step(), 4);
}

#[test]
fn run_with_no_iterations_never_calls_the_model() {
    let (r, calls, _) = drive(0, &|_| reply(Some("x"), vec![]));
    assert_eq!(r, Err("Max iterations (0) reached".to_string()));
    assert_eq!(calls, 0);
}

#[test]
fn empty_reply_ends_the_run() {
    let (r, calls, _) = drive(5, &|i| if i < 2 { reply(None, vec![call("c", "shell")]) } else { reply(None, vec![]) });
    assert_eq!(r, Err("Empty LLM response".to_string()));
    assert_eq!(calls, 2);
}
