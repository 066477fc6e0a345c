//! Judging a spawned phase: which outcome of the process runner is success,
//! and which diagnostic each failure owes.

use vstd::prelude::*;
use crate::messages::{
    nonzero_exit_message, not_found_message, render_nonzero_exit, render_not_found,
    render_spawn_failed, spawn_failed_message,
};

verus! {

/// What the caller observed when spawning and waiting for one planned
/// command.
pub enum RunOutcome {
    /// Spawning failed because the program could not be found; the text is
    /// the spawn error's own description.
    NotFound { error_text: String },
    /// Spawning failed for another reason.
    SpawnFailed { error_text: String },
    /// The process ran to completion; `status_text` renders its exit status.
    Exited { success: bool, status_text: String },
}

/// The verdict a phase's outcome owes: success exactly when the process ran
/// and exited successfully, and otherwise the diagnostic for what went
/// wrong, naming the program that could not be found.
pub open spec fn run_verdict(outcome: RunOutcome, program: Seq<char>) -> Result<(), Seq<char>> {
    match outcome {
        RunOutcome::NotFound { error_text } => Err(not_found_message(error_text@, program)),
        RunOutcome::SpawnFailed { error_text } => Err(spawn_failed_message(error_text@)),
        RunOutcome::Exited { success, status_text } => if success {
            Ok(())
        } else {
            Err(nonzero_exit_message(status_text@))
        },
    }
}

/// Judges one spawned phase.
pub fn run_result(outcome: &RunOutcome, program: &str) -> (r: Result<(), String>)
    ensures
        match r {
            Ok(()) => run_verdict(*outcome, program@) is Ok,
            Err(m) => run_verdict(*outcome, program@) == Err::<(), Seq<char>>(m@),
        },
{
    match outcome {
        RunOutcome::NotFound { error_text } => Err(render_not_found(error_text.as_str(), program)),
        RunOutcome::SpawnFailed { error_text } => Err(render_spawn_failed(error_text.as_str())),
        RunOutcome::Exited { success, status_text } => if *success {
            Ok(())
        } else {
            Err(render_nonzero_exit(status_text.as_str()))
        },
    }
}

} // verus!
