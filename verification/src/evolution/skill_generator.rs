//! Skill generator: asks the model for the code of a new tool and turns its
//! answer into a skill.

use vstd::prelude::*;
use crate::evolution::self_corrector::{CorrectionStrategy, StrategyView};
use crate::llm::provider::LlmMessage;
use crate::outside::{empty_json_object, is_empty_object};
use crate::types::Skill;

verus! {

broadcast use vstd::string::group_string_axioms;

/// Generates skills with the help of the model.
pub struct SkillGenerator;

/// The system message of a skill request.
pub open spec fn skill_system_message() -> Seq<char> {
    "You are a skilled Rust programmer. Generate production-quality tool implementations."@
}

/// The request for the code of tool `name`, needed for `reason`, in context `ctx`.
pub open spec fn skill_prompt(name: Seq<char>, reason: Seq<char>, ctx: Seq<char>) -> Seq<char> {
    "Task context:\n"@ + ctx + "\n\nGenerate a Rust tool implementation for \""@ + name + "\" ("@
        + reason + ").\nThe tool should implement the Tool trait from crate `crate::tools::registry::Tool`.\n\nRequirements:\n1. Use `#[async_trait]`\n2. Return `anyhow::Result<String>`\n3. Parameters via `serde_json::Value`\n4. Include proper error handling\n5. Output ONLY the Rust code in a code block\n\nExample signature:\n```rust\nuse async_trait::async_trait;\nuse serde::{Deserialize, Serialize};\nuse crate::tools::registry::Tool;\n\npub struct "@
        + name + "Tool;\n\n#[async_trait]\nimpl Tool for "@ + name
        + "Tool {\n    fn name(&self) -> &str { \""@ + name
        + "\" }\n    fn description(&self) -> &str { \"...\" }\n    fn parameters(&self) -> serde_json::Value { ... }\n    async fn execute(&self, args: serde_json::Value) -> anyhow::Result<String> {\n        // implementation\n    }\n}\n```"@
}

impl SkillGenerator {
    pub fn new() -> (r: Self) {
        SkillGenerator
    }

    /// The messages asking the model for a new tool, when `strategy` calls for
    /// one; no request otherwise.
    pub fn prompt_messages(&self, strategy: &CorrectionStrategy, task_context: &str) -> (r: Option<Vec<LlmMessage>>)
        ensures
            strategy@ matches StrategyView::CreateTool { tool_name, reason } ==> {
                &&& r matches Some(msgs)
                &&& msgs@.len() == 2
                &&& msgs@[0].role@ == "system"@
                &&& msgs@[0].content@ == skill_system_message()
                &&& msgs@[1].role@ == "user"@
                &&& msgs@[1].content@ == skill_prompt(tool_name, reason, task_context@)
            },
            !(strategy@ is CreateTool) ==> r is None,
    {
        match strategy {
            CorrectionStrategy::CreateTool { tool_name, reason } => {
                let mut p = String::new();
                p.append("Task context:\n");
                p.append(task_context);
                p.append("\n\nGenerate a Rust tool implementation for \"");
                p.append(tool_name.as_str());
                p.append("\" (");
                p.append(reason);
                p.append(
                    ").\nThe tool should implement the Tool trait from crate `crate::tools::registry::Tool`.\n\nRequirements:\n1. Use `#[async_trait]`\n2. Return `anyhow::Result<String>`\n3. Parameters via `serde_json::Value`\n4. Include proper error handling\n5. Output ONLY the Rust code in a code block\n\nExample signature:\n```rust\nuse async_trait::async_trait;\nuse serde::{Deserialize, Serialize};\nuse crate::tools::registry::Tool;\n\npub struct ",
                );
                p.append(tool_name.as_str());
                p.append("Tool;\n\n#[async_trait]\nimpl Tool for ");
                p.append(tool_name.as_str());
                p.append("Tool {\n    fn name(&self) -> &str { \"");
                p.append(tool_name.as_str());
                p.append(
                    "\" }\n    fn description(&self) -> &str { \"...\" }\n    fn parameters(&self) -> serde_json::Value { ... }\n    async fn execute(&self, args: serde_json::Value) -> anyhow::Result<String> {\n        // implementation\n    }\n}\n```",
                );
                let mut msgs: Vec<LlmMessage> = Vec::new();
                msgs.push(
                    LlmMessage {
                        role: "system".to_owned(),
                        content: "You are a skilled Rust programmer. Generate production-quality tool implementations.".to_owned(),
                    },
                );
                msgs.push(LlmMessage { role: "user".to_owned(), content: p });
                Some(msgs)
            },
            _ => None,
        }
    }

    /// The skill made of the model's answer `reply` to the request for
    /// `strategy`, with empty parameters: none without an answer or without
    /// a tool to create.
    pub fn skill_from_reply(&self, strategy: &CorrectionStrategy, task_context: &str, reply: Option<String>) -> (r: Option<Skill>)
        ensures
            strategy@ matches StrategyView::CreateTool { tool_name, reason } ==> reply is Some ==> {
                &&& r matches Some(s)
                &&& s.name@ == tool_name + "Tool"@
                &&& s.description@ == task_context@
                &&& s.source_code@ == reply->0@
                &&& s.tool_name@ == tool_name
                &&& s.success_count == 0
                &&& s.failure_count == 0
                &&& s.last_used is None
                &&& is_empty_object(s.parameters)
            },
            !(strategy@ is CreateTool) || reply is None ==> r is None,
    {
        match strategy {
            CorrectionStrategy::CreateTool { tool_name, .. } => {
                match reply {
                    Some(code) => {
                        let mut name = String::new();
                        name.append(tool_name.as_str());
                        name.append("Tool");
                        Some(
                            Skill::new(
                                name.as_str(),
                                task_context,
                                code.as_str(),
                                tool_name.as_str(),
                                empty_json_object(),
                            ),
                        )
                    },
                    None => None,
                }
            },
            _ => None,
        }
    }
}

} // verus!
