//! The diagnostic texts that failed phases surface to the caller.

use vstd::prelude::*;
use crate::text::{concat2, concat3};

verus! {

/// Diagnostic for a required externally-injected value that is absent.
pub open spec fn missing_env_message(name: Seq<char>) -> Seq<char> {
    "environment variable `"@ + name + "` not defined"@
}

pub fn render_missing_env(name: &str) -> (r: String)
    ensures
        r@ == missing_env_message(name@),
{
    concat3("environment variable `", name, "` not defined")
}

/// Diagnostic when the capability probe could not spawn a shell at all.
pub open spec fn sh_required_message() -> Seq<char> {
    "`sh` is required to run `configure`"@
}

pub fn render_sh_required() -> (r: String)
    ensures
        r@ == sh_required_message(),
{
    String::from_str("`sh` is required to run `configure`")
}

/// Diagnostic when the shell ran but did not behave as a POSIX shell.
pub open spec fn sh_broken_message() -> Seq<char> {
    "`sh` is not standard or is otherwise broken"@
}

pub fn render_sh_broken() -> (r: String)
    ensures
        r@ == sh_broken_message(),
{
    String::from_str("`sh` is not standard or is otherwise broken")
}

/// Diagnostic when the shell works except that it cannot execute a
/// shebang-bearing script.
pub open spec fn sh_shebang_message() -> Seq<char> {
    "`sh` does not parse shebangs"@
}

pub fn render_sh_shebang() -> (r: String)
    ensures
        r@ == sh_shebang_message(),
{
    String::from_str("`sh` does not parse shebangs")
}

/// Diagnostic when a phase's program could not be found.
pub open spec fn not_found_message(error_text: Seq<char>, program: Seq<char>) -> Seq<char> {
    "failed to execute command: "@ + error_text + "\nis `"@ + program + "` not installed?"@
}

pub fn render_not_found(error_text: &str, program: &str) -> (r: String)
    ensures
        r@ == not_found_message(error_text@, program@),
{
    let mut out = concat3("failed to execute command: ", error_text, "\nis `");
    out.append(program);
    out.append("` not installed?");
    out
}

/// Diagnostic when spawning a phase's program failed for another reason.
pub open spec fn spawn_failed_message(error_text: Seq<char>) -> Seq<char> {
    "failed to execute command: "@ + error_text
}

pub fn render_spawn_failed(error_text: &str) -> (r: String)
    ensures
        r@ == spawn_failed_message(error_text@),
{
    concat2("failed to execute command: ", error_text)
}

/// Diagnostic when a phase's process completed with a failure status.
pub open spec fn nonzero_exit_message(status_text: Seq<char>) -> Seq<char> {
    "command did not execute successfully, got: "@ + status_text
}

pub fn render_nonzero_exit(status_text: &str) -> (r: String)
    ensures
        r@ == nonzero_exit_message(status_text@),
{
    concat2("command did not execute successfully, got: ", status_text)
}

/// Diagnostic when the discovered compiler could not be turned into plain
/// command text.
pub open spec fn compiler_message() -> Seq<char> {
    "failed to determine the compiler to use"@
}

pub fn render_compiler_message() -> (r: String)
    ensures
        r@ == compiler_message(),
{
    String::from_str("failed to determine the compiler to use")
}

/// The combined diagnostic for a failed configure phase: the legacy tool's
/// own log is surfaced first when it could be read; a failure to read it is
/// reported without masking the original failure.
pub open spec fn configure_diagnostic_message(
    log: Option<Seq<char>>,
    failure: Seq<char>,
) -> Seq<char> {
    match log {
        Some(l) => l + "\n"@ + failure,
        None => "the configure log could not be read\n"@ + failure,
    }
}

pub fn configure_diagnostic(log: &Option<String>, failure: &str) -> (r: String)
    ensures
        r@ == configure_diagnostic_message(log.deep_view(), failure@),
{
    match log {
        Some(l) => concat3(l.as_str(), "\n", failure),
        None => concat2("the configure log could not be read\n", failure),
    }
}

} // verus!
