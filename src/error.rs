//! Errors of the supervisor and of its argument handling.
use vstd::prelude::*;

verus! {

/// Everything that can stop the supervisor before it has an exit status to
/// report. Operating-system failures carry the `errno` value they came with.
#[derive(Debug, Clone, PartialEq, Eq)]
pub enum TimeoutError {
    ForkFailed(i32),
    ExecFailed { cmd: String, reason: String },
    InvalidDuration { input: String, reason: String },
    InvalidMemoryLimit { input: String, reason: String },
    InvalidCpuLimit { input: String, reason: String },
    UnknownSignal(String),
    SignalSetupFailed { signal: String, reason: String },
    ProcessGroupFailed(i32),
    SignalSendFailed { signal: String, errno: i32 },
    ResourceLimitFailed(i32),
    CommandNotFound(String),
    PermissionDenied(String),
    FeatureNotSupported(String),
}

} // verus!
