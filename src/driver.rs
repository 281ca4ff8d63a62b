use crate::error::{ErrorKind, HostError};
use vstd::prelude::*;

verus! {

/// The stages of one run.
#[derive(Clone, Copy, Debug, PartialEq, Eq, Structural)]
pub enum RunState {
    Uninitialized,
    Bootstrapped,
    ModuleLoading,
    Evaluating,
    Draining,
    Completed,
    Failed(ErrorKind),
}

/// What the host reports back after doing the work of a stage.
#[derive(Clone, Copy, Debug, PartialEq, Eq, Structural)]
pub enum RunEvent {
    /// The bootstrap script ran to its end.
    BootstrapDone,
    /// The entry module's specifier was resolved.
    EntryResolved,
    /// The module graph of the entry module is loaded and compiled.
    GraphLoaded,
    /// Evaluation of the entry module began.
    EvaluationStarted,
    /// A turn of the event loop ran, and work is still pending.
    WorkPending,
    /// No work is left and the entry module's evaluation succeeded.
    Quiescent,
    /// The stage's work failed.
    Error(ErrorKind),
}

/// The work that the host does next.
#[derive(Clone, Copy, Debug, PartialEq, Eq, Structural)]
pub enum RunAction {
    /// Build the engine with the operations and the loader, and run the
    /// bootstrap script.
    Bootstrap,
    /// Resolve the entry path against the working directory.
    ResolveEntry,
    /// Have the engine load the entry module and its imports.
    LoadMainModule,
    /// Begin evaluating the entry module.
    Evaluate,
    /// Run one turn of the event loop.
    PollEventLoop,
    /// End the process with this status.
    Exit(u8),
}

pub open spec fn is_terminal(s: RunState) -> bool {
    s == RunState::Completed || s is Failed
}

/// The state after `e` in state `s`. A failure in the bootstrap stage is
/// always a bootstrap failure; a terminal state stays as it is; an event
/// that does not belong to the current stage changes nothing.
pub open spec fn next_state(s: RunState, e: RunEvent) -> RunState {
    if is_terminal(s) {
        s
    } else {
        match e {
            RunEvent::Error(k) => if s == RunState::Uninitialized {
                RunState::Failed(ErrorKind::BootstrapFailure)
            } else {
                RunState::Failed(k)
            },
            RunEvent::BootstrapDone => if s == RunState::Uninitialized {
                RunState::Bootstrapped
            } else {
                s
            },
            RunEvent::EntryResolved => if s == RunState::Bootstrapped {
                RunState::ModuleLoading
            } else {
                s
            },
            RunEvent::GraphLoaded => if s == RunState::ModuleLoading {
                RunState::Evaluating
            } else {
                s
            },
            RunEvent::EvaluationStarted => if s == RunState::Evaluating {
                RunState::Draining
            } else {
                s
            },
            RunEvent::WorkPending => s,
            RunEvent::Quiescent => if s == RunState::Draining {
                RunState::Completed
            } else {
                s
            },
        }
    }
}

/// The process status of a run that ended in `s`.
pub open spec fn exit_code_of(s: RunState) -> u8 {
    if s == RunState::Completed {
        0
    } else {
        1
    }
}

/// The work that the host does in state `s`.
pub open spec fn action_of(s: RunState) -> RunAction {
    match s {
        RunState::Uninitialized => RunAction::Bootstrap,
        RunState::Bootstrapped => RunAction::ResolveEntry,
        RunState::ModuleLoading => RunAction::LoadMainModule,
        RunState::Evaluating => RunAction::Evaluate,
        RunState::Draining => RunAction::PollEventLoop,
        _ => RunAction::Exit(exit_code_of(s)),
    }
}

/// The process status of a run that ended in `s`: zero only on success.
pub fn exit_code(s: RunState) -> (r: u8)
    ensures
        r == exit_code_of(s),
        r == 0 <==> s == RunState::Completed,
{
    match s {
        RunState::Completed => 0,
        _ => 1,
    }
}

/// The work that the host does in state `s`.
pub fn action(s: RunState) -> (r: RunAction)
    ensures
        r == action_of(s),
{
    match s {
        RunState::Uninitialized => RunAction::Bootstrap,
        RunState::Bootstrapped => RunAction::ResolveEntry,
        RunState::ModuleLoading => RunAction::LoadMainModule,
        RunState::Evaluating => RunAction::Evaluate,
        RunState::Draining => RunAction::PollEventLoop,
        _ => RunAction::Exit(exit_code(s)),
    }
}

/// Takes the run one step: the new state after `e`, and the work to do in it.
pub fn step(s: RunState, e: RunEvent) -> (r: (RunState, RunAction))
    ensures
        r.0 == next_state(s, e),
        r.1 == action_of(r.0),
{
    let n = match s {
        RunState::Completed | RunState::Failed(_) => s,
        _ => match e {
            RunEvent::Error(k) => match s {
                RunState::Uninitialized => RunState::Failed(ErrorKind::BootstrapFailure),
                _ => RunState::Failed(k),
            },
            RunEvent::BootstrapDone => match s {
                RunState::Uninitialized => RunState::Bootstrapped,
                _ => s,
            },
            RunEvent::EntryResolved => match s {
                RunState::Bootstrapped => RunState::ModuleLoading,
                _ => s,
            },
            RunEvent::GraphLoaded => match s {
                RunState::ModuleLoading => RunState::Evaluating,
                _ => s,
            },
            RunEvent::EvaluationStarted => match s {
                RunState::Evaluating => RunState::Draining,
                _ => s,
            },
            RunEvent::WorkPending => s,
            RunEvent::Quiescent => match s {
                RunState::Draining => RunState::Completed,
                _ => s,
            },
        },
    };
    (n, action(n))
}

/// The line printed to error output when a run fails with `e`.
pub fn error_line(e: &HostError) -> (r: String)
    ensures
        r@ == "error: "@ + e.message@,
{
    let mut line = String::from_str("error: ");
    line.append(e.message.as_str());
    line
}

/// A terminal state is never left, whatever is reported after it.
pub proof fn lemma_terminal_absorbs(s: RunState, e: RunEvent)
    requires
        is_terminal(s),
    ensures
        next_state(s, e) == s,
        action_of(next_state(s, e)) == RunAction::Exit(exit_code_of(s)),
{
}

/// Every failure ends the run with a non-zero status, and a failure while
/// bootstrapping is a bootstrap failure whatever its cause.
pub proof fn lemma_failure_exits_nonzero(s: RunState, k: ErrorKind)
    requires
        !is_terminal(s),
    ensures
        next_state(s, RunEvent::Error(k)) is Failed,
        exit_code_of(next_state(s, RunEvent::Error(k))) != 0,
        s == RunState::Uninitialized ==> next_state(s, RunEvent::Error(k)) == RunState::Failed(
            ErrorKind::BootstrapFailure,
        ),
{
}

} // verus!
