use pangu_agent::agent::StepEvent;
use pangu_agent::gateway::handlers::{
    display_api_key, requested_session_id, run_response, session_error_done, session_info, sse_event, stream_done,
};
use pangu_agent::gateway::models::{
    default_context_window, default_data_dir, default_host, default_max_tokens, default_port,
    default_working_window, GatewayConfig, MemoryConfig, RegisterToolRequest,
};
use pangu_agent::gateway::state::{mask_key, provider_for, register_tool, safe_api_key};
use pangu_agent::llm::openai::{OpenAiProvider, API_URL};
use pangu_agent::llm::provider::{response_from_choices, ChatChoice, RawToolCall};
use pangu_agent::memory::working::WorkingMemory;
use pangu_agent::tools::registry::ToolRegistry;
use pangu_agent::types::Message;

#[test]
fn context_windows_by_model() {
    assert_eq!(OpenAiProvider::new("gpt-4o-mini", "k").context_window(), 128_000);
    assert_eq!(OpenAiProvider::new("gpt-4-turbo", "k").context_window(), 128_000);
    assert_eq!(OpenAiProvider::new("gpt-4", "k").context_window(), 8_192);
    assert_eq!(OpenAiProvider::new("gpt-3.5-turbo", "k").context_window(), 16_385);
    assert_eq!(OpenAiProvider::new("llama", "k").context_window(), 128_000);
}

#[test]
fn provider_request_parts() {
    let p = OpenAiProvider::new("m", "sk");
    assert_eq!(p.chat_url(), format!("{}/chat/completions", API_URL));
    assert_eq!(p.chat_url(), "https://api.openai.com/v1/chat/completions");
    let p = OpenAiProvider::with_base_url("m", "sk", "https://x/v1");
    assert_eq!(p.chat_url(), "https://x/v1/chat/completions");
    assert_eq!(p.authorization(), "Bearer sk");
    assert_eq!(p.tool_choice(true).as_deref(), Some("auto"));
    assert_eq!(p.tool_choice(false), None);
    assert_eq!(p.name(), "m");
    let q = p.clone();
    assert_eq!(q.base_url.as_deref(), Some("https://x/v1"));
}

#[test]
fn api_keys_are_masked() {
    assert_eq!(mask_key("12345678"), "****");
    assert_eq!(mask_key("sk-abcdefgh1234"), "sk-a...1234");
    assert_eq!(safe_api_key(""), "");
    assert_eq!(safe_api_key("sk-abcdefgh1234"), "sk-a...1234");
    assert_eq!(display_api_key(""), "");
    assert_eq!(display_api_key("short"), "********");
    assert_eq!(display_api_key("sk-abcdefgh1234"), "sk-a...1234");
}

#[test]
fn providers_by_name() {
    let p = provider_for("custom", "m", "k", "http://h").unwrap();
    assert_eq!(p.base_url.as_deref(), Some("http://h"));
    assert!(provider_for("openai", "m", "k", "b").is_ok());
    assert_eq!(provider_for("gemini", "m", "k", "b").unwrap_err(), "不支持的 provider: gemini");
}

#[test]
fn anthropic_and_ollama_are_served_with_their_own_base() {
    let a = provider_for("anthropic", "model-a", "k", "").unwrap();
    assert_eq!(a.chat_url(), "https://api.anthropic.com/v1/chat/completions");
    assert_eq!(a.authorization(), "Bearer k");
    let o = provider_for("ollama", "llama3", "", "").unwrap();
    assert_eq!(o.chat_url(), "http://localhost:11434/v1/chat/completions");
    let o2 = provider_for("ollama", "llama3", "", "http://box:11434/v1").unwrap();
    assert_eq!(o2.chat_url(), "http://box:11434/v1/chat/completions");
    let d = provider_for("openai", "gpt-4o", "k", "").unwrap();
    assert_eq!(d.chat_url(), "https://api.openai.com/v1/chat/completions");
}

#[test]
fn tool_registration_is_always_enabled() {
    let mut r = ToolRegistry::new();
    let req = RegisterToolRequest {
        name: "t".into(),
        description: "d".into(),
        parameters: serde_json::Value::Null,
        enabled: false,
    };
    register_tool(&mut r, req).unwrap();
    assert!(r.get_def("t").unwrap().enabled);
}

#[test]
fn run_responses_and_sessions() {
    let ok = run_response("s1".into(), Ok("fine".into()));
    assert_eq!((ok.session_id.as_str(), ok.result.as_str(), ok.iterations, ok.tool_calls), ("s1", "fine", 1, 0));
    let err = run_response("s1".into(), Err("LLM call failed".into()));
    assert_eq!((err.session_id.as_str(), err.result.as_str(), err.iterations), ("", "agent error: LLM call failed", 0));
    let mut m = WorkingMemory::new(10);
    m.push(Message::user("abcdefgh"));
    let info = session_info("s".into(), &m);
    assert_eq!((info.message_count, info.token_estimate), (1, 2));
}

#[test]
fn step_events_as_sse() {
    let e = sse_event(&StepEvent::Thinking("t".into()));
    assert_eq!((e.0.as_str(), e.1.as_str()), ("thinking", "t"));
    let e = sse_event(&StepEvent::CallingTool { name: "n".into(), call_id: "c".into() });
    assert_eq!((e.0.as_str(), e.1.as_str()), ("tool_call", "n"));
    let e = sse_event(&StepEvent::ToolResult { name: "n".into(), success: false });
    assert_eq!((e.0.as_str(), e.1.as_str()), ("tool_result", "n: failed"));
    let e = sse_event(&StepEvent::ToolResult { name: "n".into(), success: true });
    assert_eq!(e.1, "n: ok");
    let e = sse_event(&StepEvent::Done { result: "r".into(), iterations: 1, tool_calls: 2 });
    assert_eq!((e.0.as_str(), e.1.as_str()), ("done", "r"));
}

#[test]
fn defaults() {
    assert_eq!(default_port(), 4848);
    assert_eq!(default_host(), "0.0.0.0");
    assert_eq!(default_working_window(), 64000);
    assert_eq!(default_data_dir(), "~/.pangu/data");
    assert_eq!(default_max_tokens(), 4096);
    assert_eq!(default_context_window(), 128000);
    let g = GatewayConfig::default();
    assert_eq!((g.port, g.host.as_str()), (4848, "0.0.0.0"));
    let m = MemoryConfig::default();
    assert_eq!((m.working_window, m.data_dir.as_str()), (64000, "~/.pangu/data"));
}

#[test]
fn stream_done_carries_statistics_or_error() {
    match stream_done(Ok("all good".to_string()), 3, 2) {
        StepEvent::Done { result, iterations, tool_calls } => {
            assert_eq!(result, "all good");
            assert_eq!(iterations, 3);
            assert_eq!(tool_calls, 2);
        }
        other => panic!("unexpected event {:?}", other),
    }
    match stream_done(Err("LLM call failed".to_string()), 3, 2) {
        StepEvent::Done { result, iterations, tool_calls } => {
            assert_eq!(result, "error: LLM call failed");
            assert_eq!(iterations, 0);
            assert_eq!(tool_calls, 0);
        }
        other => panic!("unexpected event {:?}", other),
    }
}

#[test]
fn session_error_is_reported_as_done() {
    match session_error_done("不支持的 provider: x") {
        StepEvent::Done { result, iterations, tool_calls } => {
            assert_eq!(result, "session error: 不支持的 provider: x");
            assert_eq!(iterations, 0);
            assert_eq!(tool_calls, 0);
        }
        other => panic!("unexpected event {:?}", other),
    }
}

#[test]
fn tool_call_arguments_are_parsed() {
    let call = pangu_agent::llm::provider::tool_call_of(
        "call_1".to_string(),
        "shell".to_string(),
        r#"{"command":"ls -la","timeout_secs":5}"#,
    );
    assert_eq!(call.id, "call_1");
    assert_eq!(call.name, "shell");
    assert_eq!(call.arguments["command"], "ls -la");
    assert_eq!(call.arguments["timeout_secs"], 5);
}

#[test]
fn unparsable_tool_call_arguments_become_empty_object() {
    let call = pangu_agent::llm::provider::tool_call_of("c".to_string(), "file".to_string(), "not json {");
    assert_eq!(call.arguments, serde_json::Value::Object(serde_json::Map::new()));
    let none = pangu_agent::llm::provider::arguments_or_empty(None);
    assert!(none.as_object().map(|o| o.is_empty()).unwrap_or(false));
}

#[test]
fn first_choice_becomes_the_response() {

    assert_eq!(response_from_choices(vec![]).unwrap_err(), "No choices in LLM response");
    let first = ChatChoice {
        content: Some("thinking".to_string()),
        tool_calls: vec![
            RawToolCall { id: "a".to_string(), name: "shell".to_string(), arguments: r#"{"command":"ls"}"#.to_string() },
            RawToolCall { id: "b".to_string(), name: "web".to_string(), arguments: "oops".to_string() },
        ],
    };
    let second = ChatChoice { content: Some("other".to_string()), tool_calls: vec![] };
    let resp = response_from_choices(vec![first, second]).unwrap();
    assert_eq!(resp.content.as_deref(), Some("thinking"));
    assert!(resp.reasoning.is_none());
    assert_eq!(resp.tool_calls.len(), 2);
    assert_eq!(resp.tool_calls[0].id, "a");
    assert_eq!(resp.tool_calls[0].arguments["command"], "ls");
    assert_eq!(resp.tool_calls[1].name, "web");
    assert_eq!(resp.tool_calls[1].arguments, serde_json::Value::Object(serde_json::Map::new()));
}

#[test]
fn run_requests_keep_or_make_their_session() {
    assert_eq!(requested_session_id(Some("abc".to_string())), "abc");
    let fresh = requested_session_id(None);
    assert_eq!(fresh.len(), 36);
    assert_eq!(fresh.matches('-').count(), 4);
}
