//! The supervisor's decisions over the backend's life. The host performs each
//! action that `Supervisor::step` returns and hands back what came of it as
//! the next event; the supervisor does no I/O itself.
//!
//! Startup launches the backend. Shutdown reads the state file, ends the
//! recorded process, writes the audit line, deletes the state file and exits;
//! every failure on that way leads to the exit all the same.

use vstd::prelude::*;
use crate::state::ReadError;
use crate::terminate::TerminateError;

verus! {

#[derive(Clone, Copy, Debug, PartialEq, Eq, Structural)]
pub enum Phase {
    NotStarted,
    Launching,
    Running,
    /// Shutdown: waiting for the state file's PID.
    ReadingState,
    /// Shutdown: waiting for the kill of `pid`.
    Killing { pid: u32 },
    /// Shutdown: `pid` was ended; waiting for the audit line.
    Auditing { pid: u32 },
    /// Shutdown: waiting for the state file's removal.
    Deleting,
    Stopped,
}

/// What the host reports.
#[derive(Clone, Copy, Debug)]
pub enum Event {
    /// The host is up.
    Ready,
    /// The launch command was started, or could not be.
    Launched { started: bool },
    /// The user or the system asked the host to exit.
    ExitRequested,
    StateRead { pid: Result<u32, ReadError> },
    Killed { outcome: Result<(), TerminateError> },
    /// The audit line was appended, or that failed; either way shutdown goes on.
    AuditWritten,
    /// The state file's removal was tried.
    StateDeleted,
}

/// What the host is to do next.
#[derive(Clone, Copy, Debug, PartialEq, Eq, Structural)]
pub enum Action {
    /// Start the backend with `launch_command`.
    Launch,
    /// The backend could not be started: stop the host visibly.
    AbortStartup,
    /// Read the state file and report its PID.
    ReadState,
    /// End process `pid` with `kill_command`.
    Kill { pid: u32 },
    /// Append the audit line for `pid` to the backend's log.
    AppendAudit { pid: u32 },
    /// Remove the state file.
    DeleteState,
    /// Exit the host with status 0.
    Exit,
    /// Nothing to do for this event.
    Wait,
}

/// The supervisor's next phase and action on `e` in phase `ph`.
pub open spec fn transition(ph: Phase, e: Event) -> (Phase, Action) {
    match (ph, e) {
        (Phase::NotStarted, Event::Ready) => (Phase::Launching, Action::Launch),
        (Phase::Launching, Event::Launched { started }) => if started {
            (Phase::Running, Action::Wait)
        } else {
            (Phase::Stopped, Action::AbortStartup)
        },
        (Phase::NotStarted, Event::ExitRequested) | (Phase::Launching, Event::ExitRequested) | (
            Phase::Running,
            Event::ExitRequested,
        ) => (Phase::ReadingState, Action::ReadState),
        (Phase::ReadingState, Event::StateRead { pid }) => match pid {
            Ok(p) => (Phase::Killing { pid: p }, Action::Kill { pid: p }),
            Err(_) => (Phase::Stopped, Action::Exit),
        },
        (Phase::Killing { pid }, Event::Killed { outcome }) => match outcome {
            Ok(()) => (Phase::Auditing { pid }, Action::AppendAudit { pid }),
            Err(TerminateError::NoSuchProcess) => (Phase::Deleting, Action::DeleteState),
            Err(_) => (Phase::Stopped, Action::Exit),
        },
        (Phase::Auditing { .. }, Event::AuditWritten) => (Phase::Deleting, Action::DeleteState),
        (Phase::Deleting, Event::StateDeleted) => (Phase::Stopped, Action::Exit),
        _ => (ph, Action::Wait),
    }
}

/// The phases of shutdown.
pub open spec fn is_shutting_down(ph: Phase) -> bool {
    match ph {
        Phase::ReadingState | Phase::Killing { .. } | Phase::Auditing { .. } | Phase::Deleting => true,
        _ => false,
    }
}

/// The event that answers the action which led into shutdown phase `ph`.
pub open spec fn answers(ph: Phase, e: Event) -> bool {
    match (ph, e) {
        (Phase::ReadingState, Event::StateRead { .. }) => true,
        (Phase::Killing { .. }, Event::Killed { .. }) => true,
        (Phase::Auditing { .. }, Event::AuditWritten) => true,
        (Phase::Deleting, Event::StateDeleted) => true,
        _ => false,
    }
}

/// How many answers shutdown waits for at most before it exits.
pub open spec fn steps_to_exit(ph: Phase) -> nat {
    match ph {
        Phase::ReadingState => 4,
        Phase::Killing { .. } => 3,
        Phase::Auditing { .. } => 2,
        Phase::Deleting => 1,
        _ => 0,
    }
}

/// Owns the backend's life: startup and shutdown, each one step at a time.
#[derive(Clone, Copy, Debug)]
pub struct Supervisor {
    pub phase: Phase,
}

impl Supervisor {
    pub fn new() -> (r: Supervisor)
        ensures
            r.phase == Phase::NotStarted,
    {
        Supervisor { phase: Phase::NotStarted }
    }

    /// Takes in what came of the last action and decides the next one.
    pub fn step(&mut self, e: Event) -> (r: Action)
        ensures
            (final(self).phase, r) == transition(old(self).phase, e),
    {
        let (next, action) = match (self.phase, e) {
            (Phase::NotStarted, Event::Ready) => (Phase::Launching, Action::Launch),
            (Phase::Launching, Event::Launched { started }) => {
                if started {
                    (Phase::Running, Action::Wait)
                } else {
                    (Phase::Stopped, Action::AbortStartup)
                }
            },
            (Phase::NotStarted, Event::ExitRequested)
            | (Phase::Launching, Event::ExitRequested)
            | (Phase::Running, Event::ExitRequested) => (Phase::ReadingState, Action::ReadState),
            (Phase::ReadingState, Event::StateRead { pid }) => match pid {
                Ok(p) => (Phase::Killing { pid: p }, Action::Kill { pid: p }),
                Err(_) => (Phase::Stopped, Action::Exit),
            },
            (Phase::Killing { pid }, Event::Killed { outcome }) => match outcome {
                Ok(()) => (Phase::Auditing { pid }, Action::AppendAudit { pid }),
                Err(TerminateError::NoSuchProcess) => (Phase::Deleting, Action::DeleteState),
                Err(_) => (Phase::Stopped, Action::Exit),
            },
            (Phase::Auditing { .. }, Event::AuditWritten) => (Phase::Deleting, Action::DeleteState),
            (Phase::Deleting, Event::StateDeleted) => (Phase::Stopped, Action::Exit),
            _ => (self.phase, Action::Wait),
        };
        self.phase = next;
        action
    }
}

/// The state file is removed only after the recorded process was ended, or
/// was found gone already; shutdown comes to the audit line only after the
/// process was ended.
pub proof fn lemma_delete_only_after_kill(ph: Phase, e: Event)
    ensures
        transition(ph, e).1 == Action::DeleteState ==> (ph is Auditing && e == Event::AuditWritten)
            || (ph is Killing && e == (Event::Killed {
            outcome: Err(TerminateError::NoSuchProcess),
        })),
        transition(ph, e).0 is Auditing && !(ph is Auditing) ==> ph is Killing && e matches Event::Killed {
            outcome: Ok(_),
        },
{
}

/// Once shutdown has begun, each answer brings the exit one step nearer, and
/// shutdown ends only by exiting: no failure can hold the host up.
pub proof fn lemma_shutdown_reaches_exit(ph: Phase, e: Event)
    requires
        is_shutting_down(ph),
        answers(ph, e),
    ensures
        steps_to_exit(transition(ph, e).0) < steps_to_exit(ph),
        is_shutting_down(transition(ph, e).0) || (transition(ph, e).0 == Phase::Stopped
            && transition(ph, e).1 == Action::Exit),
{
}

} // verus!
