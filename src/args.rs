//! The command line, as plain values, and the supervision options it gives.
use vstd::prelude::*;
use crate::error::TimeoutError;
use crate::signal::{resolve, SignalId, TimeoutSignal};
use crate::supervisor::SupervisionConfig;
use crate::text::upper_of;

verus! {

/// The arguments of one invocation.
#[derive(Debug, Clone)]
pub struct Args {
    /// Print shell completions for this shell instead of running anything.
    pub generate_completions: Option<String>,
    /// The signal to send at the deadline, by name or number.
    pub signal: Option<String>,
    /// The grace period after the deadline, before the kill.
    pub kill_after: Option<String>,
    /// Let the command use the terminal; signal it alone, not its group.
    pub foreground: bool,
    /// Exit with the command's status even when it timed out.
    pub preserve_status: bool,
    /// Announce each signal sent on a timeout.
    pub verbose: bool,
    /// Notice when the command is stopped rather than ended.
    pub detect_stopped: bool,
    /// Send no signal at the deadline, only the kill after the grace period.
    pub no_notify: bool,
    /// The status to exit with on a timeout.
    pub status_on_timeout: Option<i32>,
    /// The command's CPU time limit in seconds.
    pub cpu_limit: Option<u64>,
    /// The command's memory limit ("100M", "1G", "512K" or bytes).
    pub mem_limit: Option<String>,
    /// The deadline ("10", "10s", "5m", "2h", "1d").
    pub duration: Option<String>,
    /// The command to run.
    pub command: Option<String>,
    /// The command's arguments.
    pub args: Vec<String>,
}

/// The signal an optional signal argument selects: the terminating signal
/// when there is none.
pub open spec fn chosen_signal(arg: Option<String>) -> Option<SignalId> {
    match arg {
        None => Some(SignalId::Term),
        Some(s) => resolve(upper_of(s@)),
    }
}

impl Args {
    /// Whether the command shares the terminal and is signalled alone.
    pub fn foreground(&self) -> (r: bool)
        ensures
            r == self.foreground,
    {
        self.foreground
    }

    /// Whether a stop of the command is noticed as such.
    pub fn detect_stopped(&self) -> (r: bool)
        ensures
            r == self.detect_stopped,
    {
        self.detect_stopped
    }

    /// Whether the deadline passes without a signal.
    pub fn no_notify(&self) -> (r: bool)
        ensures
            r == self.no_notify,
    {
        self.no_notify
    }

    /// The CPU time limit in seconds, if any.
    pub fn cpu_limit(&self) -> (r: Option<u64>)
        ensures
            r == self.cpu_limit,
    {
        self.cpu_limit
    }

    /// The memory limit as given, if any.
    pub fn mem_limit(&self) -> (r: Option<String>)
        ensures
            r == self.mem_limit,
    {
        match &self.mem_limit {
            Some(m) => Some(m.clone()),
            None => None,
        }
    }

    /// The supervision options these arguments give. Fails only on a signal
    /// argument that names no known signal.
    pub fn supervision_config(&self) -> (r: Result<SupervisionConfig, TimeoutError>)
        ensures
            match chosen_signal(self.signal) {
                Some(id) => (r matches Ok(c) && {
                    &&& c.term_signal == TimeoutSignal(id)
                    &&& c.kill_after == self.kill_after is Some
                    &&& c.foreground == self.foreground
                    &&& c.preserve_status == self.preserve_status
                    &&& c.verbose == self.verbose
                    &&& c.detect_stopped == self.detect_stopped
                    &&& c.no_notify == self.no_notify
                    &&& c.status_on_timeout == self.status_on_timeout
                }),
                None => (r matches Err(TimeoutError::UnknownSignal(t)) && t@ == self.signal.unwrap()@),
            },
    {
        let term_signal = match &self.signal {
            Some(s) => match TimeoutSignal::from_str_or_num(s.as_str()) {
                Ok(sig) => sig,
                Err(e) => return Err(e),
            },
            None => TimeoutSignal(SignalId::Term),
        };
        Ok(
            SupervisionConfig {
                term_signal,
                kill_after: self.kill_after.is_some(),
                foreground: self.foreground,
                preserve_status: self.preserve_status,
                verbose: self.verbose,
                detect_stopped: self.detect_stopped,
                no_notify: self.no_notify,
                status_on_timeout: self.status_on_timeout,
            },
        )
    }
}

} // verus!
