//! Self-corrector: reads a failure and decides how to respond to it.

use vstd::prelude::*;
use vstd::utf8::{decode_utf8, encode_utf8, is_char_boundary};
use crate::text::{
    chars_contain_char, chars_of, lowercase, seq_contains, split_lines, split_lines_of,
    str_contains, string_from_chars, to_lowercase, trim, trim_chars,
};
use crate::types::ErrorRecord;

verus! {

broadcast use vstd::string::group_string_axioms;

/// Decides the response to a failure.
pub struct SelfCorrector;

/// How to respond to a failure.
#[derive(Debug)]
pub enum CorrectionStrategy {
    /// A new tool is needed.
    CreateTool { tool_name: String, reason: &'static str },
    /// The timeout should be raised.
    AdjustTimeout { suggested_timeout: u64 },
    /// A permission should be fixed.
    FixPermission { path: String },
    /// Retry with a hint about the failure.
    RetryWithContext { hint: String },
}

/// A correction strategy as plain values.
pub enum StrategyView {
    CreateTool { tool_name: Seq<char>, reason: Seq<char> },
    AdjustTimeout { suggested_timeout: u64 },
    FixPermission { path: Seq<char> },
    RetryWithContext { hint: Seq<char> },
}

impl View for CorrectionStrategy {
    type V = StrategyView;

    open spec fn view(&self) -> StrategyView {
        match self {
            CorrectionStrategy::CreateTool { tool_name, reason } => StrategyView::CreateTool {
                tool_name: tool_name@,
                reason: reason@,
            },
            CorrectionStrategy::AdjustTimeout { suggested_timeout } => StrategyView::AdjustTimeout {
                suggested_timeout: *suggested_timeout,
            },
            CorrectionStrategy::FixPermission { path } => StrategyView::FixPermission { path: path@ },
            CorrectionStrategy::RetryWithContext { hint } => StrategyView::RetryWithContext {
                hint: hint@,
            },
        }
    }
}

/// The tool a task most likely needs, judged by words in its lower-cased text.
pub open spec fn inferred_tool_name(task: Seq<char>) -> Seq<char> {
    let t = lowercase(task);
    if seq_contains(t, "search"@) || seq_contains(t, "web"@) {
        "web_search"@
    } else if seq_contains(t, "file"@) || seq_contains(t, "write"@) || seq_contains(t, "read"@) {
        "file"@
    } else if seq_contains(t, "run"@) || seq_contains(t, "execute"@) || seq_contains(t, "shell"@) {
        "shell"@
    } else {
        "custom_tool"@
    }
}

/// A line that looks like it names a path: it holds `/` or `\`.
pub open spec fn names_path(line: Seq<char>) -> bool {
    line.contains('/') || line.contains('\\')
}

/// The first of `lines` that names a path.
pub open spec fn first_path_line(lines: Seq<Seq<char>>) -> Option<Seq<char>>
    decreases lines.len(),
{
    if lines.len() == 0 {
        None
    } else if names_path(lines[0]) {
        Some(lines[0])
    } else {
        first_path_line(lines.drop_first())
    }
}

/// The first line of `context` that names a path, trimmed; empty if none does.
pub open spec fn extracted_path(context: Seq<char>) -> Seq<char> {
    match first_path_line(split_lines(context)) {
        Some(l) => trim(l),
        None => Seq::empty(),
    }
}

/// The number of bytes of the context shown in a hint: at most 200.
pub open spec fn hint_cut(context: Seq<char>) -> int {
    let n = encode_utf8(context).len();
    if n < 200 {
        n as int
    } else {
        200
    }
}

/// The context shown in a hint: its first `hint_cut` bytes.
pub open spec fn hint_context(context: Seq<char>) -> Seq<char> {
    decode_utf8(encode_utf8(context).subrange(0, hint_cut(context)))
}

/// Whether the cut of the context in a hint falls between two characters
/// (cutting elsewhere would split a character, which is not possible), the
/// byte length of the context being one that memory can hold.
pub open spec fn hint_cut_ok(context: Seq<char>) -> bool {
    &&& is_char_boundary(encode_utf8(context), hint_cut(context))
    &&& encode_utf8(context).len() <= usize::MAX
}

/// The hint given for a retry.
pub open spec fn retry_hint(e: ErrorRecord) -> Seq<char> {
    "Task '"@ + e.task@ + "' failed with: "@ + e.error_message@ + ". Context: "@ + hint_context(
        e.context@,
    )
}

/// The response `analyze` chooses for `e`.
pub open spec fn analysis(e: ErrorRecord) -> StrategyView {
    let msg = lowercase(e.error_message@);
    if seq_contains(msg, "not found"@) || seq_contains(msg, "no such file"@) {
        StrategyView::CreateTool {
            tool_name: inferred_tool_name(e.task@),
            reason: "Missing capability"@,
        }
    } else if seq_contains(msg, "timeout"@) {
        StrategyView::AdjustTimeout { suggested_timeout: 60 }
    } else if seq_contains(msg, "permission"@) || seq_contains(msg, "denied"@) {
        StrategyView::FixPermission { path: extracted_path(e.context@) }
    } else if e.attempts >= 5 {
        StrategyView::CreateTool {
            tool_name: inferred_tool_name(e.task@),
            reason: "Repeated failure indicates missing tool"@,
        }
    } else {
        StrategyView::RetryWithContext { hint: retry_hint(e) }
    }
}

/// Whether `analyze` answers `e` with a retry hint.
pub open spec fn analysis_retries(e: ErrorRecord) -> bool {
    analysis(e) is RetryWithContext
}

impl SelfCorrector {
    pub fn new() -> (r: Self) {
        SelfCorrector
    }

    /// Decides how to respond to the failure `error`.
    pub fn analyze(&self, error: &ErrorRecord) -> (r: CorrectionStrategy)
        requires
            analysis_retries(*error) ==> hint_cut_ok(error.context@),
        ensures
            r@ == analysis(*error),
    {
        let msg = to_lowercase(error.error_message.as_str());
        if str_contains(msg.as_str(), "not found") || str_contains(msg.as_str(), "no such file") {
            CorrectionStrategy::CreateTool {
                tool_name: Self::infer_tool_name(error.task.as_str()),
                reason: "Missing capability",
            }
        } else if str_contains(msg.as_str(), "timeout") {
            CorrectionStrategy::AdjustTimeout { suggested_timeout: 60 }
        } else if str_contains(msg.as_str(), "permission") || str_contains(msg.as_str(), "denied") {
            CorrectionStrategy::FixPermission { path: Self::extract_path(error.context.as_str()) }
        } else if error.attempts >= 5 {
            CorrectionStrategy::CreateTool {
                tool_name: Self::infer_tool_name(error.task.as_str()),
                reason: "Repeated failure indicates missing tool",
            }
        } else {
            CorrectionStrategy::RetryWithContext { hint: Self::generate_hint(error) }
        }
    }

    /// Decides how to respond to the failure `error`, when that can be done:
    /// none when the response would be a retry hint and the hint's cut of the
    /// context would split a character.
    pub fn analyze_checked(&self, error: &ErrorRecord) -> (r: Option<CorrectionStrategy>)
        ensures
            (analysis_retries(*error) ==> hint_cut_ok(error.context@)) ==> (r matches Some(s) && s@
                == analysis(*error)),
            !(analysis_retries(*error) ==> hint_cut_ok(error.context@)) ==> r is None,
    {
        let ctx = error.context.as_str();
        let bytes = ctx.as_bytes();
        let n = bytes.len();
        proof {
            broadcast use vstd::slice::axiom_spec_len;
        }
        let cut = if n < 200 { n } else { 200 };
        if ctx.is_char_boundary(cut) || !Self::retries(error) {
            Some(self.analyze(error))
        } else {
            None
        }
    }

    /// Whether `analyze` answers `error` with a retry hint.
    fn retries(error: &ErrorRecord) -> (r: bool)
        ensures
            r == analysis_retries(*error),
    {
        let msg = to_lowercase(error.error_message.as_str());
        let m = msg.as_str();
        !(str_contains(m, "not found") || str_contains(m, "no such file")) && !str_contains(m, "timeout")
            && !(str_contains(m, "permission") || str_contains(m, "denied")) && error.attempts < 5
    }

    fn infer_tool_name(task: &str) -> (r: String)
        ensures
            r@ == inferred_tool_name(task@),
    {
        let t = to_lowercase(task);
        let t = t.as_str();
        if str_contains(t, "search") || str_contains(t, "web") {
            "web_search".to_owned()
        } else if str_contains(t, "file") || str_contains(t, "write") || str_contains(t, "read") {
            "file".to_owned()
        } else if str_contains(t, "run") || str_contains(t, "execute") || str_contains(t, "shell") {
            "shell".to_owned()
        } else {
            "custom_tool".to_owned()
        }
    }

    fn extract_path(context: &str) -> (r: String)
        ensures
            r@ == extracted_path(context@),
    {
        let cs = chars_of(context);
        let lines = split_lines_of(&cs);
        let ghost views = lines@.map_values(|l: Vec<char>| l@);
        let n = lines.len();
        assert(views.skip(0) =~= views);
        for i in 0..n
            invariant
                n == lines@.len(),
                views == lines@.map_values(|l: Vec<char>| l@),
                views == split_lines(context@),
                first_path_line(views) == first_path_line(views.skip(i as int)),
        {
            let line = &lines[i];
            assert(views.skip(i as int)[0] == line@);
            assert(views.skip(i as int).drop_first() =~= views.skip(i + 1));
            if chars_contain_char(line, '/') || chars_contain_char(line, '\\') {
                let t = trim_chars(line);
                return string_from_chars(t.as_slice());
            }
        }
        assert(views.skip(n as int) =~= Seq::<Seq<char>>::empty());
        String::new()
    }

    fn generate_hint(error: &ErrorRecord) -> (r: String)
        requires
            hint_cut_ok(error.context@),
        ensures
            r@ == retry_hint(*error),
    {
        let ctx = error.context.as_str();
        let n = ctx.len();
        let cut = if n < 200 { n } else { 200 };
        proof {
            vstd::utf8::encode_utf8_decode_utf8(error.context@);
        }
        let (head, _) = ctx.split_at(cut);
        proof {
            vstd::utf8::encode_utf8_decode_utf8(head@);
        }
        let mut r = String::new();
        r.append("Task '");
        r.append(error.task.as_str());
        r.append("' failed with: ");
        r.append(error.error_message.as_str());
        r.append(". Context: ");
        r.append(head);
        r
    }
}

/// A failure of a missing file or command asks for a new tool, with the
/// reason `Missing capability`, chosen from the words of the task (lower-cased):
/// `search` or `web` need `web_search`; otherwise `file`, `write` or `read`
/// need `file`; otherwise `run`, `execute` or `shell` need `shell`; any other
/// task needs `custom_tool`.
pub proof fn law_missing_capability_tool(e: ErrorRecord)
    requires
        seq_contains(lowercase(e.error_message@), "not found"@) || seq_contains(
            lowercase(e.error_message@),
            "no such file"@,
        ),
    ensures
        analysis(e) matches StrategyView::CreateTool { tool_name, reason } && {
            let t = lowercase(e.task@);
            let web = seq_contains(t, "search"@) || seq_contains(t, "web"@);
            let file = seq_contains(t, "file"@) || seq_contains(t, "write"@) || seq_contains(t, "read"@);
            let shell = seq_contains(t, "run"@) || seq_contains(t, "execute"@) || seq_contains(t, "shell"@);
            &&& reason == "Missing capability"@
            &&& web ==> tool_name == "web_search"@
            &&& !web && file ==> tool_name == "file"@
            &&& !web && !file && shell ==> tool_name == "shell"@
            &&& !web && !file && !shell ==> tool_name == "custom_tool"@
        },
{
}

/// The other failures, by their lower-cased message: a timeout asks for a
/// 60-second timeout; a permission problem asks to fix the permission of the
/// first path the context names; after five attempts a new tool is asked
/// for; anything else is retried with a hint.
pub proof fn law_other_failures(e: ErrorRecord)
    requires
        !seq_contains(lowercase(e.error_message@), "not found"@),
        !seq_contains(lowercase(e.error_message@), "no such file"@),
    ensures
        ({
            let m = lowercase(e.error_message@);
            let perm = seq_contains(m, "permission"@) || seq_contains(m, "denied"@);
            &&& seq_contains(m, "timeout"@) ==> analysis(e) == StrategyView::AdjustTimeout {
                suggested_timeout: 60,
            }
            &&& !seq_contains(m, "timeout"@) && perm ==> analysis(e) == StrategyView::FixPermission {
                path: extracted_path(e.context@),
            }
            &&& !seq_contains(m, "timeout"@) && !perm && e.attempts >= 5 ==> analysis(e)
                == StrategyView::CreateTool {
                tool_name: inferred_tool_name(e.task@),
                reason: "Repeated failure indicates missing tool"@,
            }
            &&& !seq_contains(m, "timeout"@) && !perm && e.attempts < 5 ==> analysis(e)
                == StrategyView::RetryWithContext { hint: retry_hint(e) }
        }),
{
}

} // verus!
