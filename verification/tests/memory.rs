use pangu_agent::memory::working::WorkingMemory;
use pangu_agent::types::{Message, Role};

#[test]
fn push_len_and_empty() {
    let mut m = WorkingMemory::new(100);
    assert!(m.is_empty());
    m.push(Message::user("hi"));
    assert_eq!(m.len(), 1);
    assert!(!m.is_empty());
    assert_eq!(m.messages()[0].content, "hi");
    m.messages_mut().push(Message::assistant("there"));
    assert_eq!(m.len(), 2);
}

#[test]
fn token_estimate_is_bytes_over_four() {
    let mut m = WorkingMemory::new(100);
    m.push(Message::user("abcdefgh"));
    m.push(Message::user("中文"));
    // 8 + 6 bytes = 14, 14 / 4 = 3
    assert_eq!(m.estimate_tokens(), 3);
}

#[test]
fn compression_is_needed_above_seventy_percent() {
    let mut m = WorkingMemory::new(10);
    // 28 bytes -> 7 tokens, 10 * 70 / 100 = 7: not above
    m.push(Message::user(&"a".repeat(28)));
    assert!(!m.needs_compression());
    m.push(Message::user("abcd"));
    assert!(m.needs_compression());
}

#[test]
fn compress_keeps_system_and_most_recent() {
    let mut m = WorkingMemory::new(100);
    m.push(Message::system("sys"));
    for i in 0..5 {
        m.push(Message::user(&format!("m{}", i)));
    }
    m.compress(2);
    let contents: Vec<&str> = m.messages().iter().map(|x| x.content.as_str()).collect();
    assert_eq!(
        contents,
        vec!["sys", "m3", "m4", "[Previous context compressed. Summary of dropped messages not shown.]"]
    );
    assert_eq!(m.messages()[3].role, Role::Assistant);
}

#[test]
fn compress_leaves_short_memory() {
    let mut m = WorkingMemory::new(100);
    m.push(Message::system("sys"));
    m.push(Message::user("a"));
    m.compress(20);
    assert_eq!(m.len(), 2);
}

#[test]
fn llm_messages_carry_role_names() {
    let mut m = WorkingMemory::new(100);
    m.push(Message::system("s"));
    m.push(Message::user("u"));
    m.push(Message::assistant("a"));
    m.push(Message::tool("id", "t"));
    let roles: Vec<String> = m.to_llm_messages().into_iter().map(|x| format!("{}:{}", x.role, x.content)).collect();
    assert_eq!(roles, vec!["system:s", "user:u", "assistant:a", "tool:t"]);
}

#[test]
fn clone_keeps_messages_and_budget() {
    let mut wm = WorkingMemory::new(40);
    wm.push(Message::system("sys"));
    wm.push(Message::user("hello"));
    let copy = wm.clone();
    assert_eq!(copy.len(), 2);
    assert_eq!(copy.messages()[1].content, "hello");
    assert_eq!(copy.estimate_tokens(), wm.estimate_tokens());
    assert_eq!(copy.needs_compression(), wm.needs_compression());
    wm.push(Message::user("more"));
    assert_eq!(copy.len(), 2);
}

#[test]
fn stored_skill_rows_become_skills() {
    use_skill_rows();
}

fn use_skill_rows() {
    let s = pangu_agent::memory::episodic::skill_from_row(
        "id1".to_string(),
        "FooTool".to_string(),
        "ctx".to_string(),
        "fn x() {}".to_string(),
        "foo".to_string(),
        r#"{"a":1}"#,
        3,
        -1,
        "2024-05-01T10:20:30+02:00",
        Some("2024-05-02T00:00:00.5Z"),
    );
    assert_eq!(s.id, "id1");
    assert_eq!(s.name, "FooTool");
    assert_eq!(s.tool_name, "foo");
    assert_eq!(s.parameters["a"], 1);
    assert_eq!(s.success_count, 3);
    assert_eq!(s.failure_count, u32::MAX);
    assert_eq!(s.created_at, "2024-05-01T08:20:30+00:00");
    assert_eq!(s.last_used.as_deref(), Some("2024-05-02T00:00:00.500+00:00"));

    let t = pangu_agent::memory::episodic::skill_from_row(
        String::new(),
        String::new(),
        String::new(),
        String::new(),
        String::new(),
        "not json",
        0,
        0,
        "yesterday",
        Some("never"),
    );
    assert!(t.parameters.is_null());
    assert!(t.created_at.ends_with("+00:00"));
    assert_eq!(t.last_used, None);
    let u = pangu_agent::memory::episodic::skill_from_row(
        String::new(), String::new(), String::new(), String::new(), String::new(), "{}", 0, 0, "x", None,
    );
    assert_eq!(u.last_used, None);
}
