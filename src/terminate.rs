//! What the exit status and error output of the platform's kill program say
//! about the backend.

use vstd::prelude::*;
use crate::commands::Platform;
use crate::text::{contains, contains_text};

verus! {

/// Why ending the backend failed.
#[derive(Clone, Copy, Debug, PartialEq, Eq, Structural)]
pub enum TerminateError {
    /// No live process has the PID: the backend had already exited.
    NoSuchProcess,
    /// The kill program ran and reported another failure, or was itself ended
    /// by a signal.
    Failed,
    /// The kill program could not be started.
    SpawnFailed,
}

/// The exit status with which the platform's kill program reports that no
/// process has the PID.
pub open spec fn no_such_process_status(p: Platform) -> i32 {
    match p {
        Platform::Windows => 128,
        Platform::Unix => 1,
    }
}

/// What the platform's kill program writes to its error output when no
/// process has the PID. The same exit status also reports other failures,
/// such as a process that may not be signalled.
pub open spec fn no_such_process_text(p: Platform) -> Seq<char> {
    match p {
        Platform::Windows => "not found"@,
        Platform::Unix => "No such process"@,
    }
}

/// The outcome of a kill program that exited with `status` (none when a
/// signal ended it) after writing `stderr`: the process counts as gone only
/// when both the status and the message say so.
pub open spec fn termination_of(p: Platform, status: Option<i32>, stderr: Seq<char>) -> Result<
    (),
    TerminateError,
> {
    match status {
        Some(0) => Ok(()),
        Some(c) => if c == no_such_process_status(p) && contains_text(
            stderr,
            no_such_process_text(p),
        ) {
            Err(TerminateError::NoSuchProcess)
        } else {
            Err(TerminateError::Failed)
        },
        None => Err(TerminateError::Failed),
    }
}

/// Reads the exit status and error output of the kill program run by
/// `kill_command`.
pub fn termination_result(p: Platform, status: Option<i32>, stderr: &str) -> (r: Result<
    (),
    TerminateError,
>)
    ensures
        r == termination_of(p, status, stderr@),
{
    let (missing, message): (i32, &str) = match p {
        Platform::Windows => (128, "not found"),
        Platform::Unix => (1, "No such process"),
    };
    match status {
        Some(0) => Ok(()),
        Some(c) => {
            if c == missing && contains(stderr, message) {
                Err(TerminateError::NoSuchProcess)
            } else {
                Err(TerminateError::Failed)
            }
        },
        None => Err(TerminateError::Failed),
    }
}

} // verus!
