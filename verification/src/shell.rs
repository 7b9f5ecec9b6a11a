use vstd::prelude::*;
use vstd::string::StringExecFns;

verus! {

/// What the caller observed of the spawned subprocess. The spawn itself
/// is process I/O and lives outside this crate; the shaping of what the
/// session sees is decided here.
pub enum ExecOutcome {
    /// The process ran to completion: its captured standard output and
    /// whether it exited successfully.
    Exited { stdout: String, exit_ok: bool },
    /// The process could not be spawned, or was cut short before it
    /// completed; the reported error text.
    SpawnFailed { error: String },
}

/// The synthesized notice for a successful command with empty output,
/// embedding the original command line.
pub open spec fn exec_success_notice(line: Seq<char>) -> Seq<char> {
    "⭕️ exe succeed cmd: "@ + line
}

/// The error text substituted for output when the command exited
/// unsuccessfully, embedding the original command line.
pub open spec fn exec_failure_notice(line: Seq<char>) -> Seq<char> {
    "❌ exe failed cmd: "@ + line
}

/// The session-visible result of running `line`: the text to show and
/// whether the run succeeded. A successful run with empty output is
/// replaced by a synthesized success notice, so the reply is never blank.
pub fn shell_reply(line: &str, outcome: &ExecOutcome) -> (r: (String, bool))
    ensures
        match outcome {
            ExecOutcome::SpawnFailed { error } => r.0@ == error@ && r.1 == false,
            ExecOutcome::Exited { stdout, exit_ok } => {
                &&& *exit_ok == r.1
                &&& !*exit_ok ==> r.0@ == exec_failure_notice(line@)
                &&& (*exit_ok && stdout@.len() == 0) ==> r.0@ == exec_success_notice(line@)
                &&& (*exit_ok && stdout@.len() > 0) ==> r.0@ == stdout@
            },
        },
{
    match outcome {
        ExecOutcome::SpawnFailed { error } => (error.clone(), false),
        ExecOutcome::Exited { stdout, exit_ok } => {
            if !*exit_ok {
                let mut r = String::from_str("❌ exe failed cmd: ");
                r.append(line);
                (r, false)
            } else if stdout.as_str().is_empty() {
                let mut r = String::from_str("⭕️ exe succeed cmd: ");
                r.append(line);
                (r, true)
            } else {
                (stdout.clone(), true)
            }
        },
    }
}

/// The two synthesized notices are never blank and never collide: a
/// failing command is always distinguishable from the synthesized
/// success of a quiet one, whatever the command line was.
pub proof fn lemma_notices_distinct(line: Seq<char>)
    ensures
        exec_success_notice(line).len() > line.len(),
        exec_failure_notice(line).len() > line.len(),
        exec_success_notice(line).skip(
            exec_success_notice(line).len() - line.len(),
        ) =~= line,
        exec_success_notice(line) != exec_failure_notice(line),
{
    reveal_strlit("⭕️ exe succeed cmd: ");
    reveal_strlit("❌ exe failed cmd: ");
    assert(exec_success_notice(line)[0] == '⭕');
    assert(exec_failure_notice(line)[0] == '❌');
}

} // verus!
