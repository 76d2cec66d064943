//! The shell tool: which commands it refuses and how it reports an outcome.

use crate::strings::{contains, lowercase, occurs_in, to_lowercase, trim, trimmed};
use crate::text::{decimal, decimal_text, join, signed_decimal, signed_decimal_text};
use vstd::prelude::*;

verus! {

/// Runs a shell command.
#[derive(Clone, Copy, Debug, PartialEq, Eq)]
pub struct BashTool;

/// The first of the forbidden patterns that occurs in `command`, letter
/// case aside, if any does.
pub open spec fn forbidden_in(command: Seq<char>) -> Option<Seq<char>> {
    let lowered = lowercase(command);
    if occurs_in(lowered, "rm -rf /"@) {
        Some("rm -rf /"@)
    } else if occurs_in(lowered, "format c:"@) {
        Some("format c:"@)
    } else if occurs_in(lowered, "rd /s /q c:\\"@) {
        Some("rd /s /q c:\\"@)
    } else {
        None
    }
}

/// The report of a command that ran: on success its output, followed by
/// its error output under `WARNINGS:` if that is not blank; on failure the
/// exit code, `-1` if there is none, and both outputs.
pub open spec fn outcome_report(
    success: bool,
    exit_code: Option<i32>,
    stdout: Seq<char>,
    stderr: Seq<char>,
) -> Seq<char> {
    if success {
        if trimmed(stderr).len() == 0 {
            stdout
        } else {
            stdout + "\nWARNINGS:\n"@ + stderr
        }
    } else {
        "Exit Code: "@ + signed_decimal_text(
            match exit_code {
                Some(code) => code as int,
                None => -1,
            },
        ) + "\nStderr: "@ + stderr + "\nStdout: "@ + stdout
    }
}

impl BashTool {
    /// How long a command may run unless told otherwise, in seconds.
    pub const DEFAULT_TIMEOUT_SECS: u64 = 120;

    pub fn name(&self) -> (name: &'static str)
        ensures
            name@ == "bash"@,
    {
        "bash"
    }

    pub fn description(&self) -> (text: &'static str)
        ensures
            text@ == "Execute a shell command. On Windows uses PowerShell."@,
    {
        "Execute a shell command. On Windows uses PowerShell."
    }

    /// Refuses a command in which a forbidden pattern occurs, whatever the
    /// case of its letters, and says which pattern it was.
    pub fn screen(command: &str) -> (verdict: Result<(), String>)
        ensures
            match forbidden_in(command@) {
                Some(pattern) => verdict matches Err(message) && message@
                    == "Command blocked for security: "@ + pattern,
                None => verdict is Ok,
            },
    {
        let lowered = to_lowercase(command);
        if contains(lowered.as_str(), "rm -rf /") {
            Err(join("Command blocked for security: ", "rm -rf /"))
        } else if contains(lowered.as_str(), "format c:") {
            Err(join("Command blocked for security: ", "format c:"))
        } else if contains(lowered.as_str(), "rd /s /q c:\\") {
            Err(join("Command blocked for security: ", "rd /s /q c:\\"))
        } else {
            Ok(())
        }
    }

    /// What is reported of a command that ran longer than `seconds` seconds.
    pub fn timed_out(seconds: u64) -> (message: String)
        ensures
            message@ == "Command timed out after "@ + decimal_text(seconds as nat) + " seconds"@,
    {
        let mut message = join("Command timed out after ", decimal(seconds).as_str());
        message.append(" seconds");
        message
    }

    /// Reports the outcome of a command that ran.
    pub fn report(success: bool, exit_code: Option<i32>, stdout: &str, stderr: &str) -> (text:
        String)
        ensures
            text@ == outcome_report(success, exit_code, stdout@, stderr@),
    {
        if success {
            if trim(stderr).unicode_len() == 0 {
                stdout.to_owned()
            } else {
                let mut text = join(stdout, "\nWARNINGS:\n");
                text.append(stderr);
                text
            }
        } else {
            let code: i64 = match exit_code {
                Some(code) => code as i64,
                None => -1,
            };
            let mut text = join("Exit Code: ", signed_decimal(code).as_str());
            text.append("\nStderr: ");
            text.append(stderr);
            text.append("\nStdout: ");
            text.append(stdout);
            text
        }
    }
}

} // verus!
