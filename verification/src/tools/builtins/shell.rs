//! The shell tool: what a command's end comes to.

use vstd::prelude::*;
use crate::text::{push_signed_decimal, signed_decimal};

verus! {

broadcast use vstd::string::group_string_axioms;

/// The arguments of the shell tool.
pub struct ShellArgs {
    pub command: String,
    pub timeout_secs: u64,
    pub cwd: Option<String>,
}

/// The time limit used when the arguments give none.
pub fn default_timeout() -> (r: u64)
    ensures
        r == 30,
{
    30
}

/// Runs shell commands.
pub struct ShellTool;

/// The error of a command that exited with `code` (1 when it has none).
pub open spec fn exit_message(code: Option<i32>, stderr: Seq<char>, stdout: Seq<char>) -> Seq<char> {
    let c = match code {
        Some(c) => c,
        None => 1i32,
    };
    "Exit "@ + signed_decimal(c as int) + ": "@ + stderr + "\n"@ + stdout
}

impl ShellTool {
    pub fn new() -> (r: Self) {
        ShellTool
    }

    /// The tool's name.
    pub fn name(&self) -> (r: &'static str)
        ensures
            r@ == "shell"@,
    {
        "shell"
    }

    /// The tool's description.
    pub fn description(&self) -> (r: &'static str)
        ensures
            r@ == "Execute a shell command. Returns stdout on success, stderr on error."@,
    {
        "Execute a shell command. Returns stdout on success, stderr on error."
    }

    /// What a command comes to: its output on success, otherwise an error
    /// with its exit code, error output and output.
    pub fn outcome(&self, success: bool, code: Option<i32>, stdout: &str, stderr: &str) -> (r: Result<String, String>)
        ensures
            success ==> (r matches Ok(o) && o@ == stdout@),
            !success ==> (r matches Err(e) && e@ == exit_message(code, stderr@, stdout@)),
    {
        if success {
            Ok(stdout.to_owned())
        } else {
            let c = match code {
                Some(c) => c,
                None => 1,
            };
            let mut m = String::new();
            m.append("Exit ");
            push_signed_decimal(&mut m, c);
            m.append(": ");
            m.append(stderr);
            m.append("\n");
            m.append(stdout);
            Err(m)
        }
    }
}

impl Default for ShellTool {
    fn default() -> (r: Self) {
        ShellTool
    }
}

} // verus!
