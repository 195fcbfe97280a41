use pangu_agent::text::{
    chars_of, replace_str, str_contains, str_eq, to_lowercase, trim_chars, utf8_len_of,
};
use pangu_agent::types::{ErrorRecord, Message, Role, SessionId, Skill, Task, TaskStatus, ToolCall, ToolResult};

fn is_uuid_form(s: &str) -> bool {
    let cs: Vec<char> = s.chars().collect();
    cs.len() == 36
        && cs.iter().enumerate().all(|(i, c)| {
            if i == 8 || i == 13 || i == 18 || i == 23 {
                *c == '-'
            } else {
                c.is_ascii_hexdigit() && !c.is_ascii_uppercase()
            }
        })
}

#[test]
fn session_ids_are_fresh_uuids() {
    let a = SessionId::new();
    let b = SessionId::default();
    assert!(is_uuid_form(&a.0));
    assert!(is_uuid_form(&b.0));
    assert_ne!(a.0, b.0);
}

#[test]
fn tool_result_ok_and_err() {
    let ok = ToolResult::ok("c1".to_string(), "out".to_string(), 7);
    assert!(ok.success);
    assert_eq!(ok.output, "out");
    assert_eq!(ok.error, None);
    assert_eq!(ok.duration_ms, 7);
    let err = ToolResult::err("c2".to_string(), "boom".to_string(), 9);
    assert!(!err.success);
    assert_eq!(err.output, "");
    assert_eq!(err.error.as_deref(), Some("boom"));
    assert_eq!(err.call_id, "c2");
}

#[test]
fn tool_call_new_keeps_name_and_arguments() {
    let args = serde_json::Value::from("x");
    let c = ToolCall::new("shell".to_string(), args.clone());
    assert_eq!(c.name, "shell");
    assert_eq!(c.arguments, args);
    assert!(is_uuid_form(&c.id));
    assert!(!c.created_at.is_empty());
}

#[test]
fn error_record_starts_at_one_attempt() {
    let mut r = ErrorRecord::new("s", "t", "k", "m", "ctx");
    assert_eq!((r.session_id.as_str(), r.task.as_str(), r.error_type.as_str()), ("s", "t", "k"));
    assert_eq!((r.error_message.as_str(), r.context.as_str()), ("m", "ctx"));
    assert_eq!(r.attempts, 1);
    assert!(!r.resolved);
    r.increment_attempt();
    assert_eq!(r.attempts, 2);
}

#[test]
fn message_constructors_set_roles() {
    assert_eq!(Message::system("a").role, Role::System);
    assert_eq!(Message::user("b").role, Role::User);
    assert_eq!(Message::assistant("c").role, Role::Assistant);
    let t = Message::tool("id", "d");
    assert_eq!(t.role, Role::Tool);
    assert_eq!(t.content, "d");
    assert!(t.tool_calls.is_none() && t.tool_results.is_none());
}

#[test]
fn task_and_skill_constructors() {
    let t = Task::new("do it");
    assert_eq!(t.description, "do it");
    assert_eq!(t.status, TaskStatus::Pending);
    assert!(t.subtasks.is_empty());
    let s = Skill::new("n", "d", "code", "tool", serde_json::Value::Null);
    assert_eq!((s.name.as_str(), s.tool_name.as_str(), s.source_code.as_str()), ("n", "tool", "code"));
    assert_eq!((s.success_count, s.failure_count), (0, 0));
    assert!(s.last_used.is_none());
}

#[test]
fn text_operations_match_std() {
    let samples = ["", "  hello world \n", "\u{3000}中文 \t", "a<b>b</b>c", "aaa"];
    for s in samples {
        let t: String = trim_chars(&chars_of(s)).into_iter().collect();
        assert_eq!(t, s.trim());
        assert_eq!(utf8_len_of(s), s.len() as u128);
        assert_eq!(replace_str(s, "a", "xy"), s.replace("a", "xy"));
        assert_eq!(replace_str(s, "", "-"), s.replace("", "-"));
        assert_eq!(str_contains(s, "b>"), s.contains("b>"));
    }
    assert!(str_contains("abc", ""));
    assert!(!str_contains("ab", "abc"));
    assert!(str_eq("x", "x") && !str_eq("x", "y"));
    assert_eq!(to_lowercase("HeLLo ÄÖ"), "hello äö");
    assert_eq!(replace_str("aaa", "aa", "b"), "ba");
}
