use vstd::prelude::*;
use crate::text::{int_text, i32_to_string, opt_view};

verus! {

/// The outcome of a tool call.
#[derive(Debug, Clone)]
pub struct ToolcallResult {
    pub success: bool,
    pub output: String,
    pub error: Option<String>,
}

/// A tool that runs a shell command, with a time limit.
#[derive(Debug, Clone, Copy)]
pub struct ShellToolcall {
    timeout_ms: u64,
}

/// The time limit of a shell tool made without one, in milliseconds.
pub const DEFAULT_SHELL_TIMEOUT_MS: u64 = 30000;

/// The combined output of a command: standard output, then, when standard
/// error is not empty, a marker line and standard error.
pub open spec fn combined_output(stdout: Seq<char>, stderr: Seq<char>) -> Seq<char> {
    if stderr.len() == 0 {
        stdout
    } else {
        stdout + "\nSTDERR:\n"@ + stderr
    }
}

/// How an exit code is written in a failure message.
pub open spec fn exit_code_text(code: Option<i32>) -> Seq<char> {
    match code {
        Some(c) => "Some("@ + int_text(c as int) + ")"@,
        None => "None"@,
    }
}

impl ShellToolcall {
    /// The time limit in milliseconds.
    pub closed spec fn timeout(&self) -> u64 {
        self.timeout_ms
    }

    /// A shell tool with a time limit of thirty seconds.
    pub fn new() -> (r: Self)
        ensures
            r.timeout() == DEFAULT_SHELL_TIMEOUT_MS,
    {
        ShellToolcall { timeout_ms: DEFAULT_SHELL_TIMEOUT_MS }
    }

    /// A shell tool with the given time limit in milliseconds.
    pub fn with_timeout(timeout_ms: u64) -> (r: Self)
        ensures
            r.timeout() == timeout_ms,
    {
        ShellToolcall { timeout_ms }
    }

    /// The time limit in milliseconds.
    pub fn timeout_ms(&self) -> (r: u64)
        ensures
            r == self.timeout(),
    {
        self.timeout_ms
    }

    /// The result reported for a finished command, from its captured output,
    /// whether it succeeded, and its exit code if it had one.
    pub fn result_of(stdout: String, stderr: String, success: bool, exit_code: Option<i32>) -> (r:
        ToolcallResult)
        ensures
            r.success == success,
            r.output@ == combined_output(stdout@, stderr@),
            success ==> r.error is None,
            !success ==> opt_view(r.error) == Some(
                "Command failed with exit code: "@ + exit_code_text(exit_code),
            ),
    {
        let output = if stderr.as_str().unicode_len() == 0 {
            stdout
        } else {
            let mut o = stdout;
            o.append("\nSTDERR:\n");
            o.append(stderr.as_str());
            o
        };
        let error = if success {
            None
        } else {
            let mut e = String::from_str("Command failed with exit code: ");
            match exit_code {
                Some(c) => {
                    e.append("Some(");
                    e.append(i32_to_string(c).as_str());
                    e.append(")");
                },
                None => {
                    e.append("None");
                },
            }
            Some(e)
        };
        ToolcallResult { success, output, error }
    }
}

impl Default for ShellToolcall {
    fn default() -> (r: Self)
        ensures
            r.timeout() == DEFAULT_SHELL_TIMEOUT_MS,
    {
        ShellToolcall::new()
    }
}

} // verus!
