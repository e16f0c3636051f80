//! Hook runner: the decisions around a migration's optional before/after
//! hook script. The hook and its regeneration step are opaque external
//! processes; the host performs them and reports back their exit status and
//! captured output. A hook failure is an ordinary result, never an abnormal
//! abort.

use vstd::prelude::*;
use vstd::string::StringExecFns;

verus! {

/// What the hook runner asks the host to do next.
#[derive(Debug, PartialEq)]
pub enum HookStep {
    /// Perform the external regeneration step derived from the state
    /// artifact, then report back through `hook_after_generation`.
    RunGeneration,
    /// Execute the hook script as an external process, capturing combined
    /// stdout/stderr, then report back through `hook_after_script`.
    RunScript,
    /// The hook phase is over: success, or the failure message to propagate.
    Finished(Result<(), String>),
}

/// A failure message: the phase identifier in brackets, the reason, and the
/// captured output of the external process.
pub open spec fn failure_text(
    identifier: Seq<char>,
    reason: Seq<char>,
    stdout: Seq<char>,
    stderr: Seq<char>,
) -> Seq<char> {
    "["@ + identifier + "] "@ + reason + "\nSTDOUT: "@ + stdout + "\nSTDERR: "@ + stderr + "\n"@
}

/// The message reported when the regeneration step fails.
pub open spec fn generation_failure_text(
    identifier: Seq<char>,
    stdout: Seq<char>,
    stderr: Seq<char>,
) -> Seq<char> {
    failure_text(identifier, "Error in generating."@, stdout, stderr)
}

/// The message reported when the hook script itself fails.
pub open spec fn execution_failure_text(
    identifier: Seq<char>,
    stdout: Seq<char>,
    stderr: Seq<char>,
) -> Seq<char> {
    failure_text(identifier, "Error while executing."@, stdout, stderr)
}

fn compose_failure(identifier: &str, reason: &str, stdout: &str, stderr: &str) -> (r: String)
    ensures
        r@ == failure_text(identifier@, reason@, stdout@, stderr@),
{
    let mut s = String::new();
    s.append("[");
    s.append(identifier);
    s.append("] ");
    s.append(reason);
    s.append("\nSTDOUT: ");
    s.append(stdout);
    s.append("\nSTDERR: ");
    s.append(stderr);
    s.append("\n");
    proof {
        assert(s@ =~= failure_text(identifier@, reason@, stdout@, stderr@));
    }
    s
}

/// Begin a hook phase. An absent script is a no-op success; a present
/// script with a companion state artifact requires the regeneration step
/// first; otherwise the script runs directly.
pub fn hook_begin(script: &Option<String>, state: &Option<String>) -> (r: HookStep)
    ensures
        script is None ==> r == HookStep::Finished(Ok(())),
        script is Some && state is Some ==> r == HookStep::RunGeneration,
        script is Some && state is None ==> r == HookStep::RunScript,
{
    if script.is_none() {
        HookStep::Finished(Ok(()))
    } else if state.is_some() {
        HookStep::RunGeneration
    } else {
        HookStep::RunScript
    }
}

/// Absorb the regeneration step's outcome. On failure the hook fails with
/// the generation diagnostics and the script is never executed; on success
/// the script runs next.
pub fn hook_after_generation(identifier: &str, success: bool, stdout: &str, stderr: &str) -> (r:
    HookStep)
    ensures
        success ==> r == HookStep::RunScript,
        !success ==> (r matches HookStep::Finished(Err(m)) && m@ == generation_failure_text(
            identifier@,
            stdout@,
            stderr@,
        )),
{
    if success {
        HookStep::RunScript
    } else {
        HookStep::Finished(Err(compose_failure(identifier, "Error in generating.", stdout, stderr)))
    }
}

/// Absorb the hook script's outcome. A failed exit becomes the hook's
/// failure, carrying the captured output.
pub fn hook_after_script(identifier: &str, success: bool, stdout: &str, stderr: &str) -> (r:
    HookStep)
    ensures
        success ==> r == HookStep::Finished(Ok(())),
        !success ==> (r matches HookStep::Finished(Err(m)) && m@ == execution_failure_text(
            identifier@,
            stdout@,
            stderr@,
        )),
{
    if success {
        HookStep::Finished(Ok(()))
    } else {
        HookStep::Finished(
            Err(compose_failure(identifier, "Error while executing.", stdout, stderr)),
        )
    }
}

} // verus!
