use pangu_agent::evolution::error_collector::ErrorCollector;
use pangu_agent::evolution::self_corrector::{CorrectionStrategy, SelfCorrector};
use pangu_agent::evolution::skill_generator::SkillGenerator;
use pangu_agent::types::ErrorRecord;

#[test]
fn evolves_after_three_attempts() {
    let mut c = ErrorCollector::new();
    c.record("s", "task", "tool_error_x", "boom", "ctx");
    assert!(!c.should_evolve("tool_error_x"));
    c.update_attempt("tool_error_x");
    assert!(!c.should_evolve("tool_error_x"));
    c.update_attempt("tool_error_x");
    assert!(c.should_evolve("tool_error_x"));
    c.mark_resolved("tool_error_x");
    assert!(!c.should_evolve("tool_error_x"));
}

#[test]
fn threshold_and_other_kinds() {
    let mut c = ErrorCollector::new().with_threshold(1);
    assert!(!c.should_evolve("a"));
    c.record("s", "t", "a", "m", "c");
    assert!(c.should_evolve("a"));
    c.record("s", "t", "b", "m", "c");
    // the latest record is of kind b: a is unchanged
    c.update_attempt("a");
    c.mark_resolved("a");
    assert!(c.should_evolve("a"));
    let recent = c.recent_errors(5);
    assert_eq!(recent.len(), 2);
    assert_eq!(recent[0].error_type, "b");
    assert_eq!(recent[1].error_type, "a");
    assert_eq!(recent[1].attempts, 1);
    assert_eq!(c.recent_errors(1).len(), 1);
}

fn record(task: &str, msg: &str, ctx: &str, attempts: u32) -> ErrorRecord {
    let mut r = ErrorRecord::new("s", task, "k", msg, ctx);
    r.attempts = attempts;
    r
}

#[test]
fn missing_capability_creates_tool() {
    let s = SelfCorrector::new();
    match s.analyze(&record("read the file", "File NOT FOUND", "", 1)) {
        CorrectionStrategy::CreateTool { tool_name, reason } => {
            assert_eq!(tool_name, "file");
            assert_eq!(reason, "Missing capability");
        }
        _ => panic!("expected CreateTool"),
    }
    match s.analyze(&record("Web lookup", "no such file or directory", "", 1)) {
        CorrectionStrategy::CreateTool { tool_name, .. } => assert_eq!(tool_name, "web_search"),
        _ => panic!("expected CreateTool"),
    }
}

#[test]
fn timeout_and_permission() {
    let s = SelfCorrector::new();
    assert!(matches!(
        s.analyze(&record("t", "Timeout!", "", 1)),
        CorrectionStrategy::AdjustTimeout { suggested_timeout: 60 }
    ));
    match s.analyze(&record("t", "Permission denied", "first\n  /etc/passwd  \nC:\\x", 1)) {
        CorrectionStrategy::FixPermission { path } => assert_eq!(path, "/etc/passwd"),
        _ => panic!("expected FixPermission"),
    }
    match s.analyze(&record("t", "access denied", "no path here", 1)) {
        CorrectionStrategy::FixPermission { path } => assert_eq!(path, ""),
        _ => panic!("expected FixPermission"),
    }
}

#[test]
fn repeated_failure_and_retry_hint() {
    let s = SelfCorrector::new();
    match s.analyze(&record("run it", "weird", "", 5)) {
        CorrectionStrategy::CreateTool { tool_name, reason } => {
            assert_eq!(tool_name, "shell");
            assert_eq!(reason, "Repeated failure indicates missing tool");
        }
        _ => panic!("expected CreateTool"),
    }
    match s.analyze(&record("something", "weird", "ctx", 2)) {
        CorrectionStrategy::RetryWithContext { hint } => {
            assert_eq!(hint, "Task 'something' failed with: weird. Context: ctx")
        }
        _ => panic!("expected RetryWithContext"),
    }
    match s.analyze(&record("x", "weird", &"c".repeat(300), 2)) {
        CorrectionStrategy::RetryWithContext { hint } => {
            assert_eq!(hint, format!("Task 'x' failed with: weird. Context: {}", "c".repeat(200)))
        }
        _ => panic!("expected RetryWithContext"),
    }
}

#[test]
fn skill_prompt_and_skill() {
    let g = SkillGenerator::new();
    let strategy = CorrectionStrategy::CreateTool { tool_name: "zip".to_string(), reason: "Missing capability" };
    let msgs = g.prompt_messages(&strategy, "ctx").expect("request");
    assert_eq!(msgs.len(), 2);
    assert_eq!(msgs[0].role, "system");
    assert_eq!(
        msgs[0].content,
        "You are a skilled Rust programmer. Generate production-quality tool implementations."
    );
    assert_eq!(msgs[1].role, "user");
    let tool_name = "zip";
    let reason = "Missing capability";
    let task_context = "ctx";
    let expected = format!(
        r#"Task context:
{task_context}

Generate a Rust tool implementation for "{tool_name}" ({reason}).
The tool should implement the Tool trait from crate `crate::tools::registry::Tool`.

Requirements:
1. Use `#[async_trait]`
2. Return `anyhow::Result<String>`
3. Parameters via `serde_json::Value`
4. Include proper error handling
5. Output ONLY the Rust code in a code block

Example signature:
```rust
use async_trait::async_trait;
use serde::{{Deserialize, Serialize}};
use crate::tools::registry::Tool;

pub struct {}Tool;

#[async_trait]
impl Tool for {}Tool {{
    fn name(&self) -> &str {{ "{}" }}
    fn description(&self) -> &str {{ "..." }}
    fn parameters(&self) -> serde_json::Value {{ ... }}
    async fn execute(&self, args: serde_json::Value) -> anyhow::Result<String> {{
        // implementation
    }}
}}
```"#,
        tool_name, tool_name, tool_name
    );
    assert_eq!(msgs[1].content, expected);
    let skill = g.skill_from_reply(&strategy, "ctx", Some("fn main() {}".to_string())).expect("skill");
    assert_eq!(skill.name, "zipTool");
    assert_eq!(skill.tool_name, "zip");
    assert_eq!(skill.description, "ctx");
    assert_eq!(skill.source_code, "fn main() {}");
    assert_eq!(skill.parameters, serde_json::Value::Object(serde_json::Map::new()));
    assert!(g.skill_from_reply(&strategy, "ctx", None).is_none());
    let other = CorrectionStrategy::AdjustTimeout { suggested_timeout: 60 };
    assert!(g.prompt_messages(&other, "ctx").is_none());
    assert!(g.skill_from_reply(&other, "ctx", Some("x".to_string())).is_none());
}

#[test]
fn checked_analysis_refuses_a_hint_that_would_split_a_character() {
    let c = SelfCorrector::new();
    let ctx = format!("{}é tail", "a".repeat(199));
    let e = ErrorRecord::new("s", "task", "t", "boom", &ctx);
    assert!(c.analyze_checked(&e).is_none());
    let e2 = ErrorRecord::new("s", "task", "t", "file not found", &ctx);
    assert!(matches!(c.analyze_checked(&e2), Some(CorrectionStrategy::CreateTool { .. })));
    let e3 = ErrorRecord::new("s", "task", "t", "boom", "short ctx");
    match c.analyze_checked(&e3) {
        Some(CorrectionStrategy::RetryWithContext { hint }) => {
            assert_eq!(hint, "Task 'task' failed with: boom. Context: short ctx")
        }
        other => panic!("unexpected {:?}", other),
    }
}
