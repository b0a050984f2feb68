//! The exit status policy: how the supervisor's own exit status follows from
//! the way the child ended and from the configured options.
use vstd::prelude::*;
use crate::signal::{signal_number, TimeoutSignal};

verus! {

/// The child ran past its deadline (and no override was given).
pub const EXIT_TIMEDOUT: i32 = 124;
/// The supervisor itself failed.
pub const EXIT_CANCELED: i32 = 125;
/// The command was found but could not be run.
pub const EXIT_CANNOT_INVOKE: i32 = 126;
/// The command was not found.
pub const EXIT_ENOENT: i32 = 127;
/// The number of the signal that the grace-period kill sends.
pub const KILL_SIGNAL_NUMBER: i32 = 9;

/// How a reaped child ended, as far as the supervisor learned it.
#[derive(Debug, Clone, Copy, PartialEq, Eq, Structural)]
pub enum ChildStatus {
    /// It exited with this code.
    Exited(i32),
    /// It was killed by the signal of this number.
    Signaled(u8),
    /// Waiting on it failed or reported something else.
    Unknown,
}

/// Why the supervision ended.
#[derive(Debug, Clone, Copy, PartialEq, Eq, Structural)]
pub enum Ending {
    /// The child ended before the deadline.
    Finished(ChildStatus),
    /// The child ended after the deadline, before any grace-period kill.
    TimedOut(ChildStatus),
    /// The grace period ran out and the child was killed.
    GraceKilled,
    /// The supervisor was itself signalled and passed the signal on.
    Forwarded(TimeoutSignal),
}

/// Why the command could not be started in the child.
#[derive(Debug, Clone, Copy, PartialEq, Eq, Structural)]
pub enum LaunchFailure {
    NotFound,
    PermissionDenied,
    Other,
}

/// The conventional status of a child: its exit code, or 128 plus the
/// number of the signal that killed it.
pub open spec fn status_code(st: ChildStatus) -> Option<int> {
    match st {
        ChildStatus::Exited(c) => Some(c as int),
        ChildStatus::Signaled(s) => Some(128 + s),
        ChildStatus::Unknown => None,
    }
}

/// The status reported after a timeout: the override if any, else the
/// child's own status if it is to be preserved, else the timeout status.
pub open spec fn timeout_code(child_code: int, preserve_status: bool, status_on_timeout: Option<i32>) -> int {
    match status_on_timeout {
        Some(v) => v as int,
        None => if preserve_status { child_code } else { EXIT_TIMEDOUT as int },
    }
}

/// The supervisor's exit status for each way the supervision can end.
pub open spec fn exit_code_of(e: Ending, preserve_status: bool, status_on_timeout: Option<i32>) -> int {
    match e {
        Ending::Finished(st) => match status_code(st) {
            Some(c) => c,
            None => EXIT_CANCELED as int,
        },
        Ending::TimedOut(st) => match status_code(st) {
            Some(c) => timeout_code(c, preserve_status, status_on_timeout),
            None => match status_on_timeout {
                Some(v) => v as int,
                None => EXIT_TIMEDOUT as int,
            },
        },
        Ending::GraceKilled => 128 + KILL_SIGNAL_NUMBER,
        Ending::Forwarded(sig) => 128 + signal_number(sig.0),
    }
}

/// The status after a timeout, given the child's own status.
pub fn timeout_exit_code(child_code: i32, preserve_status: bool, status_on_timeout: Option<i32>) -> (r: i32)
    ensures
        r == timeout_code(child_code as int, preserve_status, status_on_timeout),
{
    if let Some(custom_status) = status_on_timeout {
        custom_status
    } else if preserve_status {
        child_code
    } else {
        EXIT_TIMEDOUT
    }
}

/// The conventional status of a child, if it ended in a known way.
pub fn child_code(st: ChildStatus) -> (r: Option<i32>)
    ensures
        match status_code(st) {
            Some(c) => r == Some(c as i32),
            None => r is None,
        },
{
    match st {
        ChildStatus::Exited(c) => Some(c),
        ChildStatus::Signaled(s) => Some(128 + s as i32),
        ChildStatus::Unknown => None,
    }
}

/// The supervisor's exit status.
pub fn final_exit_code(e: Ending, preserve_status: bool, status_on_timeout: Option<i32>) -> (r: i32)
    ensures
        r == exit_code_of(e, preserve_status, status_on_timeout),
{
    match e {
        Ending::Finished(st) => match child_code(st) {
            Some(c) => c,
            None => EXIT_CANCELED,
        },
        Ending::TimedOut(st) => match child_code(st) {
            Some(c) => timeout_exit_code(c, preserve_status, status_on_timeout),
            None => match status_on_timeout {
                Some(v) => v,
                None => EXIT_TIMEDOUT,
            },
        },
        Ending::GraceKilled => 128 + KILL_SIGNAL_NUMBER,
        Ending::Forwarded(sig) => 128 + sig.number(),
    }
}

/// The exit status of a child whose command could not be started: one for a
/// command that does not exist, another for every other failure. Neither is
/// the timeout status.
pub fn launch_failure_code(f: LaunchFailure) -> (r: i32)
    ensures
        r == (if f == LaunchFailure::NotFound { EXIT_ENOENT } else { EXIT_CANNOT_INVOKE }),
        r != EXIT_TIMEDOUT,
{
    match f {
        LaunchFailure::NotFound => EXIT_ENOENT,
        LaunchFailure::PermissionDenied => EXIT_CANNOT_INVOKE,
        LaunchFailure::Other => EXIT_CANNOT_INVOKE,
    }
}

/// A status override wins over both the preserved status and the timeout
/// status whenever the child ended after the deadline and was not killed by
/// the grace period.
pub proof fn lemma_override_wins(st: ChildStatus, preserve_status: bool, v: i32)
    ensures
        exit_code_of(Ending::TimedOut(st), preserve_status, Some(v)) == v,
{
}

} // verus!
