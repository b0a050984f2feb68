//! The supervisor of one child: a state machine from events of the child's
//! lifetime to the actions the caller performs. The caller races the events
//! (the child changing state, the deadline, the grace period, signals sent to
//! the supervisor), hands the first one to `step`, and carries out what comes
//! back in order.
use vstd::prelude::*;
use vstd::string::*;
use crate::error::TimeoutError;
use crate::policy::{exit_code_of, final_exit_code, ChildStatus, Ending};
use crate::signal::{SignalId, TimeoutSignal};

verus! {

/// Where a signal goes: the child's whole process group, or the child alone.
#[derive(Debug, Clone, Copy, PartialEq, Eq, Structural)]
pub enum Target {
    Group,
    Process,
}

/// The fixed options of one supervision.
#[derive(Debug, Clone, Copy)]
pub struct SupervisionConfig {
    /// The signal sent when the deadline passes.
    pub term_signal: TimeoutSignal,
    /// Whether a grace period follows the deadline, ended by a kill.
    pub kill_after: bool,
    /// The child shares the supervisor's process group; signals go to it alone.
    pub foreground: bool,
    /// After a timeout, report the child's own status.
    pub preserve_status: bool,
    /// Announce each signal sent on a timeout.
    pub verbose: bool,
    /// Treat a stop of the child as a stop, not as its end.
    pub detect_stopped: bool,
    /// Send nothing when the deadline passes; only the grace-period kill.
    pub no_notify: bool,
    /// The status to report after a timeout, over everything else.
    pub status_on_timeout: Option<i32>,
}

/// What waiting on the child reported.
#[derive(Debug, Clone, Copy, PartialEq, Eq, Structural)]
pub enum WaitOutcome {
    Exited(i32),
    Signaled(u8),
    Stopped(u8),
    StillAlive,
    Failed,
}

/// What the supervisor learned since the last step.
#[derive(Debug, Clone, Copy, PartialEq, Eq, Structural)]
pub enum Event {
    /// The child changed state, and waiting on it reported this.
    ChildChanged(WaitOutcome),
    /// The deadline passed.
    DeadlineElapsed,
    /// The grace period after the deadline passed.
    GraceElapsed,
    /// The supervisor itself received this signal.
    Interrupted(TimeoutSignal),
    /// A signal that had to be delivered could not be.
    SendFailed { signal: TimeoutSignal, errno: i32 },
}

/// What the caller does for the supervisor, in the order given.
#[derive(Debug, Clone, Copy, PartialEq, Eq, Structural)]
pub enum Action {
    /// Deliver a signal. If `announce`, say so on the error stream first. If
    /// `required` and delivery fails, report `Event::SendFailed`.
    Send { signal: TimeoutSignal, target: Target, announce: bool, required: bool },
    /// Say on the error stream that the child was stopped by this signal.
    ReportStop(u8),
    /// Say on the error stream that no signal is sent at the deadline.
    ReportSkip,
}

/// What the supervisor waits for before it can report the child's end.
#[derive(Debug, Clone, Copy, PartialEq, Eq, Structural)]
pub enum Pending {
    /// The child's own end, with no deadline any more.
    Exit,
    /// The child's end after the terminating signal.
    TimedOut,
    /// The child's end after the grace-period kill.
    Killed,
    /// The child's end after a signal of the supervisor was passed on.
    Forwarded(TimeoutSignal),
}

/// The supervisor's phase.
#[derive(Debug, Clone, Copy, PartialEq, Eq, Structural)]
pub enum Phase {
    /// Racing the child's end, the deadline and signals to the supervisor.
    Running,
    /// Racing the child's end, the grace period and signals to the supervisor.
    Grace,
    /// Blocking until the child is reaped.
    Reaping(Pending),
    /// The child was reaped; the exit status is known.
    Reaped,
    /// A signal could not be delivered.
    Failed { signal: TimeoutSignal, errno: i32 },
}

/// Which wait the caller runs next.
#[derive(Debug, Clone, Copy, PartialEq, Eq, Structural)]
pub enum Waiting {
    /// The child's state, the deadline, and signals to the supervisor.
    FirstRace,
    /// The child's state, the grace period, and signals to the supervisor.
    GraceRace,
    /// A blocking wait for the child's end.
    Reap,
    /// Nothing: the supervision is over.
    Nothing,
}

/// The record of one supervision, written as events resolve.
#[derive(Debug, Clone, Copy)]
pub struct SupervisionOutcome {
    /// The deadline passed before the child ended.
    pub timed_out: bool,
    /// The grace period passed and the kill was sent.
    pub kill_after_used: bool,
    /// The child was seen stopped.
    pub stopped_detected: bool,
    /// The last signal that had to be delivered to the child.
    pub signal_sent: Option<TimeoutSignal>,
    /// How the reaped child ended.
    pub child_status: Option<ChildStatus>,
    /// The supervisor's exit status, once the child is reaped.
    pub exit_code: Option<i32>,
}

/// The supervisor of one child.
#[derive(Debug, Clone, Copy)]
pub struct Supervisor {
    pub config: SupervisionConfig,
    pub phase: Phase,
    pub outcome: SupervisionOutcome,
}

/// Where the signals of a supervision go.
pub open spec fn target_of(c: SupervisionConfig) -> Target {
    if c.foreground {
        Target::Process
    } else {
        Target::Group
    }
}

/// The child's status as a wait reported it.
pub open spec fn reaped_status(w: WaitOutcome) -> ChildStatus {
    match w {
        WaitOutcome::Exited(c) => ChildStatus::Exited(c),
        WaitOutcome::Signaled(s) => ChildStatus::Signaled(s),
        _ => ChildStatus::Unknown,
    }
}

/// Why the supervision ended, given what it waited for and how the child ended.
pub open spec fn ending_of(p: Pending, st: ChildStatus) -> Ending {
    match p {
        Pending::Exit => Ending::Finished(st),
        Pending::TimedOut => Ending::TimedOut(st),
        Pending::Killed => Ending::GraceKilled,
        Pending::Forwarded(sig) => Ending::Forwarded(sig),
    }
}

/// The "continue" signal, sent so that a stopped child can act on a signal.
pub open spec fn cont() -> TimeoutSignal {
    TimeoutSignal(SignalId::Cont)
}

impl Supervisor {
    /// The supervisor before any event.
    pub open spec fn initial(config: SupervisionConfig) -> Supervisor {
        Supervisor {
            config,
            phase: Phase::Running,
            outcome: SupervisionOutcome {
                timed_out: false,
                kill_after_used: false,
                stopped_detected: false,
                signal_sent: None,
                child_status: None,
                exit_code: None,
            },
        }
    }

    /// The consistency of the phase with the record.
    pub open spec fn wf(self) -> bool {
        &&& (self.phase is Reaped <==> self.outcome.exit_code is Some)
        &&& (self.phase is Reaped <==> self.outcome.child_status is Some)
        &&& (self.outcome.kill_after_used ==> self.outcome.timed_out && self.config.kill_after)
        &&& (self.outcome.stopped_detected ==> self.config.detect_stopped)
        &&& (self.phase is Running ==> {
            &&& !self.outcome.timed_out
            &&& !self.outcome.stopped_detected
            &&& self.outcome.signal_sent is None
        })
        &&& (self.phase is Grace ==> {
            &&& self.outcome.timed_out
            &&& self.config.kill_after
            &&& !self.outcome.kill_after_used
        })
        &&& (self.phase == Phase::Reaping(Pending::TimedOut) ==> self.outcome.timed_out)
        &&& (self.phase == Phase::Reaping(Pending::Killed) ==> self.outcome.kill_after_used)
    }

    /// The supervisor once the child was reaped and ended in this way.
    pub open spec fn finished(self, ending: Ending, st: ChildStatus) -> Supervisor {
        Supervisor {
            phase: Phase::Reaped,
            outcome: SupervisionOutcome {
                child_status: Some(st),
                exit_code: Some(
                    exit_code_of(ending, self.config.preserve_status, self.config.status_on_timeout) as i32,
                ),
                ..self.outcome
            },
            ..self
        }
    }

    /// The supervisor once it passed `sig` on to the child.
    pub open spec fn forwarded(self, sig: TimeoutSignal) -> Supervisor {
        Supervisor {
            phase: Phase::Reaping(Pending::Forwarded(sig)),
            outcome: SupervisionOutcome { signal_sent: Some(sig), ..self.outcome },
            ..self
        }
    }

    /// The state after an event.
    pub open spec fn next(self, e: Event) -> Supervisor {
        let c = self.config;
        match (self.phase, e) {
            (Phase::Reaped, _) => self,
            (Phase::Failed { .. }, _) => self,
            (_, Event::SendFailed { signal, errno }) => Supervisor {
                phase: Phase::Failed { signal, errno },
                ..self
            },
            (Phase::Running, Event::ChildChanged(w)) => match w {
                WaitOutcome::Stopped(_) if c.detect_stopped => Supervisor {
                    phase: Phase::Reaping(Pending::Exit),
                    outcome: SupervisionOutcome { stopped_detected: true, ..self.outcome },
                    ..self
                },
                WaitOutcome::StillAlive => Supervisor { phase: Phase::Reaping(Pending::Exit), ..self },
                _ => self.finished(Ending::Finished(reaped_status(w)), reaped_status(w)),
            },
            (Phase::Running, Event::DeadlineElapsed) => Supervisor {
                phase: if c.kill_after {
                    Phase::Grace
                } else {
                    Phase::Reaping(Pending::TimedOut)
                },
                outcome: SupervisionOutcome {
                    timed_out: true,
                    signal_sent: if c.no_notify {
                        None
                    } else {
                        Some(c.term_signal)
                    },
                    ..self.outcome
                },
                ..self
            },
            (Phase::Running, Event::Interrupted(sig)) => self.forwarded(sig),
            (Phase::Grace, Event::ChildChanged(w)) => self.finished(
                Ending::TimedOut(reaped_status(w)),
                reaped_status(w),
            ),
            (Phase::Grace, Event::GraceElapsed) => Supervisor {
                phase: Phase::Reaping(Pending::Killed),
                outcome: SupervisionOutcome {
                    kill_after_used: true,
                    signal_sent: Some(TimeoutSignal(SignalId::Kill)),
                    ..self.outcome
                },
                ..self
            },
            (Phase::Grace, Event::Interrupted(sig)) => self.forwarded(sig),
            (Phase::Reaping(p), Event::ChildChanged(w)) => match w {
                WaitOutcome::StillAlive => self,
                WaitOutcome::Stopped(_) => self,
                _ => self.finished(ending_of(p, reaped_status(w)), reaped_status(w)),
            },
            _ => self,
        }
    }

    /// The actions for an event, in order.
    pub open spec fn actions(self, e: Event) -> Seq<Action> {
        let c = self.config;
        match (self.phase, e) {
            (Phase::Running, Event::ChildChanged(WaitOutcome::Stopped(sig))) => if c.detect_stopped {
                let resume = Action::Send {
                    signal: cont(),
                    target: target_of(c),
                    announce: false,
                    required: false,
                };
                if c.verbose {
                    seq![Action::ReportStop(sig), resume]
                } else {
                    seq![resume]
                }
            } else {
                seq![]
            },
            (Phase::Running, Event::DeadlineElapsed) => if c.no_notify {
                if c.verbose {
                    seq![Action::ReportSkip]
                } else {
                    seq![]
                }
            } else {
                let term = Action::Send {
                    signal: c.term_signal,
                    target: target_of(c),
                    announce: c.verbose,
                    required: true,
                };
                if c.foreground {
                    seq![term]
                } else {
                    seq![
                        term,
                        Action::Send { signal: cont(), target: Target::Group, announce: false, required: false },
                    ]
                }
            },
            (Phase::Running, Event::Interrupted(sig)) | (Phase::Grace, Event::Interrupted(sig)) => seq![
                Action::Send { signal: sig, target: target_of(c), announce: c.verbose, required: true },
            ],
            (Phase::Grace, Event::GraceElapsed) => seq![
                Action::Send {
                    signal: TimeoutSignal(SignalId::Kill),
                    target: target_of(c),
                    announce: c.verbose,
                    required: true,
                },
            ],
            _ => seq![],
        }
    }
}

impl Supervisor {
    /// A supervisor for a child that was just launched.
    pub fn new(config: SupervisionConfig) -> (r: Supervisor)
        ensures
            r == Supervisor::initial(config),
            r.wf(),
    {
        Supervisor {
            config,
            phase: Phase::Running,
            outcome: SupervisionOutcome {
                timed_out: false,
                kill_after_used: false,
                stopped_detected: false,
                signal_sent: None,
                child_status: None,
                exit_code: None,
            },
        }
    }

    /// Where this supervision's signals go.
    pub fn target(&self) -> (r: Target)
        ensures
            r == target_of(self.config),
    {
        if self.config.foreground {
            Target::Process
        } else {
            Target::Group
        }
    }

    /// Records the child's end.
    fn finish(&mut self, ending: Ending, st: ChildStatus)
        ensures
            *final(self) == old(self).finished(ending, st),
    {
        let code = final_exit_code(ending, self.config.preserve_status, self.config.status_on_timeout);
        self.phase = Phase::Reaped;
        self.outcome.child_status = Some(st);
        self.outcome.exit_code = Some(code);
    }

    /// Records that `sig` was passed on to the child.
    fn forward(&mut self, sig: TimeoutSignal) -> (r: Vec<Action>)
        ensures
            *final(self) == old(self).forwarded(sig),
            r@ == seq![
                Action::Send {
                    signal: sig,
                    target: target_of(old(self).config),
                    announce: old(self).config.verbose,
                    required: true,
                },
            ],
    {
        self.phase = Phase::Reaping(Pending::Forwarded(sig));
        self.outcome.signal_sent = Some(sig);
        let target = self.target();
        vec![Action::Send { signal: sig, target, announce: self.config.verbose, required: true }]
    }

    /// Takes in one event: moves to the next phase, updates the record, and
    /// returns what the caller has to do, in order.
    pub fn step(&mut self, e: Event) -> (r: Vec<Action>)
        requires
            old(self).wf(),
        ensures
            *final(self) == old(self).next(e),
            r@ == old(self).actions(e),
            final(self).wf(),
    {
        let c = self.config;
        match self.phase {
            Phase::Reaped => return Vec::new(),
            Phase::Failed { .. } => return Vec::new(),
            _ => {},
        }
        if let Event::SendFailed { signal, errno } = e {
            self.phase = Phase::Failed { signal, errno };
            return Vec::new();
        }
        match self.phase {
            Phase::Running => match e {
                Event::ChildChanged(w) => match w {
                    WaitOutcome::Stopped(sig) => {
                        if c.detect_stopped {
                            self.phase = Phase::Reaping(Pending::Exit);
                            self.outcome.stopped_detected = true;
                            let resume = Action::Send {
                                signal: TimeoutSignal(SignalId::Cont),
                                target: self.target(),
                                announce: false,
                                required: false,
                            };
                            if c.verbose {
                                vec![Action::ReportStop(sig), resume]
                            } else {
                                vec![resume]
                            }
                        } else {
                            self.finish(Ending::Finished(ChildStatus::Unknown), ChildStatus::Unknown);
                            Vec::new()
                        }
                    },
                    WaitOutcome::StillAlive => {
                        self.phase = Phase::Reaping(Pending::Exit);
                        Vec::new()
                    },
                    _ => {
                        let st = status_of(w);
                        self.finish(Ending::Finished(st), st);
                        Vec::new()
                    },
                },
                Event::DeadlineElapsed => {
                    self.outcome.timed_out = true;
                    self.phase = if c.kill_after {
                        Phase::Grace
                    } else {
                        Phase::Reaping(Pending::TimedOut)
                    };
                    if c.no_notify {
                        if c.verbose {
                            vec![Action::ReportSkip]
                        } else {
                            Vec::new()
                        }
                    } else {
                        self.outcome.signal_sent = Some(c.term_signal);
                        let term = Action::Send {
                            signal: c.term_signal,
                            target: self.target(),
                            announce: c.verbose,
                            required: true,
                        };
                        if c.foreground {
                            vec![term]
                        } else {
                            vec![
                                term,
                                Action::Send {
                                    signal: TimeoutSignal(SignalId::Cont),
                                    target: Target::Group,
                                    announce: false,
                                    required: false,
                                },
                            ]
                        }
                    }
                },
                Event::Interrupted(sig) => self.forward(sig),
                _ => Vec::new(),
            },
            Phase::Grace => match e {
                Event::ChildChanged(w) => {
                    let st = status_of(w);
                    self.finish(Ending::TimedOut(st), st);
                    Vec::new()
                },
                Event::GraceElapsed => {
                    let kill = TimeoutSignal(SignalId::Kill);
                    self.phase = Phase::Reaping(Pending::Killed);
                    self.outcome.kill_after_used = true;
                    self.outcome.signal_sent = Some(kill);
                    vec![Action::Send { signal: kill, target: self.target(), announce: c.verbose, required: true }]
                },
                Event::Interrupted(sig) => self.forward(sig),
                _ => Vec::new(),
            },
            Phase::Reaping(p) => match e {
                Event::ChildChanged(w) => match w {
                    WaitOutcome::StillAlive => Vec::new(),
                    WaitOutcome::Stopped(_) => Vec::new(),
                    _ => {
                        let st = status_of(w);
                        let ending = match p {
                            Pending::Exit => Ending::Finished(st),
                            Pending::TimedOut => Ending::TimedOut(st),
                            Pending::Killed => Ending::GraceKilled,
                            Pending::Forwarded(sig) => Ending::Forwarded(sig),
                        };
                        self.finish(ending, st);
                        Vec::new()
                    },
                },
                _ => Vec::new(),
            },
            _ => Vec::new(),
        }
    }

    /// Which wait the caller runs next.
    pub fn waiting(&self) -> (r: Waiting)
        ensures
            r == (match self.phase {
                Phase::Running => Waiting::FirstRace,
                Phase::Grace => Waiting::GraceRace,
                Phase::Reaping(_) => Waiting::Reap,
                _ => Waiting::Nothing,
            }),
    {
        match self.phase {
            Phase::Running => Waiting::FirstRace,
            Phase::Grace => Waiting::GraceRace,
            Phase::Reaping(_) => Waiting::Reap,
            _ => Waiting::Nothing,
        }
    }

    /// Whether the next wait on the child is to report stops as well as ends.
    pub fn reports_stops(&self) -> (r: bool)
        ensures
            r == (self.config.detect_stopped && self.phase is Running),
    {
        self.config.detect_stopped && match self.phase {
            Phase::Running => true,
            _ => false,
        }
    }

    /// The result of the supervision once it is over: the exit status, or the
    /// signal that could not be delivered.
    pub fn result(&self) -> (r: Option<Result<i32, TimeoutError>>)
        requires
            self.wf(),
        ensures
            match self.phase {
                Phase::Reaped => r == Some(Ok::<i32, TimeoutError>(self.outcome.exit_code.unwrap())),
                Phase::Failed { signal, errno } => r matches Some(Err(TimeoutError::SignalSendFailed { signal: name, errno: n }))
                    && name@ == crate::signal::canonical_name(signal.0) && n == errno,
                _ => r is None,
            },
    {
        match self.phase {
            Phase::Reaped => match self.outcome.exit_code {
                Some(code) => Some(Ok(code)),
                None => None,
            },
            Phase::Failed { signal, errno } => Some(
                Err(TimeoutError::SignalSendFailed { signal: String::from_str(signal.as_str()), errno }),
            ),
            _ => None,
        }
    }
}

/// The child's status as a wait reported it.
pub fn status_of(w: WaitOutcome) -> (r: ChildStatus)
    ensures
        r == reaped_status(w),
{
    match w {
        WaitOutcome::Exited(c) => ChildStatus::Exited(c),
        WaitOutcome::Signaled(s) => ChildStatus::Signaled(s),
        _ => ChildStatus::Unknown,
    }
}

/// What signalling a process group reported.
#[derive(Debug, Clone, Copy, PartialEq, Eq, Structural)]
pub enum SendResult {
    Delivered,
    /// No process was found; on some systems this happens to a group that
    /// does exist.
    NoSuchProcess,
    /// Delivery failed with this `errno`.
    Failed(i32),
}

/// What follows an attempt to signal a process group.
#[derive(Debug, Clone, Copy, PartialEq, Eq, Structural)]
pub enum GroupFollowUp {
    /// The signal was delivered.
    Done,
    /// Send the signal once more, to the process whose id is the group's.
    RetryProcess,
    /// Delivery failed with this `errno`.
    Fail(i32),
}

/// The one retry of signal delivery: a group that reports no such process is
/// signalled once more as a single process; every other result stands.
pub fn after_group_send(r: SendResult) -> (f: GroupFollowUp)
    ensures
        f == (match r {
            SendResult::Delivered => GroupFollowUp::Done,
            SendResult::NoSuchProcess => GroupFollowUp::RetryProcess,
            SendResult::Failed(e) => GroupFollowUp::Fail(e),
        }),
{
    match r {
        SendResult::Delivered => GroupFollowUp::Done,
        SendResult::NoSuchProcess => GroupFollowUp::RetryProcess,
        SendResult::Failed(e) => GroupFollowUp::Fail(e),
    }
}

/// The invariants of every step: a finished supervision stays as it is and
/// asks for nothing more, so the child is reaped once and never signalled
/// after; the supervisor never returns to its first race; the grace-period
/// kill is recorded only when the grace period passes; a stop is recorded
/// only when stops are watched for and one is reported; and the step that
/// reaps the child sends nothing.
pub proof fn lemma_step_invariants(s: Supervisor, e: Event)
    requires
        s.wf(),
    ensures
        (s.phase is Reaped || s.phase is Failed) ==> s.next(e) == s && s.actions(e) =~= Seq::<Action>::empty(),
        !(s.phase is Running) ==> !(s.next(e).phase is Running),
        !s.outcome.kill_after_used && s.next(e).outcome.kill_after_used ==> s.phase is Grace && e is GraceElapsed,
        !s.outcome.stopped_detected && s.next(e).outcome.stopped_detected ==> s.config.detect_stopped && e matches Event::ChildChanged(WaitOutcome::Stopped(_)),
        !(s.phase is Reaped) && s.next(e).phase is Reaped ==> s.actions(e) =~= Seq::<Action>::empty(),
        s.outcome.timed_out ==> s.next(e).outcome.timed_out,
{
}

/// A child that ends before the deadline: the supervision is over at once,
/// nothing is sent, no timeout is recorded, and the exit status is the
/// child's own (its code, or 128 plus the number of the signal that killed it).
pub proof fn lemma_fast_exit(config: SupervisionConfig, w: WaitOutcome)
    requires
        w is Exited || w is Signaled,
    ensures
        ({
            let s = Supervisor::initial(config).next(Event::ChildChanged(w));
            &&& s.phase is Reaped
            &&& !s.outcome.timed_out
            &&& !s.outcome.kill_after_used
            &&& s.outcome.signal_sent is None
            &&& s.outcome.exit_code == Some(
                match w {
                    WaitOutcome::Exited(c) => c,
                    WaitOutcome::Signaled(sig) => (128 + sig) as i32,
                    _ => 0,
                },
            )
        }),
        Supervisor::initial(config).actions(Event::ChildChanged(w)) =~= Seq::<Action>::empty(),
{
}

/// A child that outlives both the deadline and the grace period: it is
/// killed, the timeout and the kill are recorded, and the exit status is 128
/// plus the kill signal's number whatever the status options say and however
/// the killed child is then reported.
pub proof fn lemma_grace_kill(config: SupervisionConfig, w: WaitOutcome)
    requires
        config.kill_after,
        !(w is StillAlive || w is Stopped),
    ensures
        ({
            let s0 = Supervisor::initial(config);
            let s1 = s0.next(Event::DeadlineElapsed);
            let s2 = s1.next(Event::GraceElapsed);
            let s3 = s2.next(Event::ChildChanged(w));
            &&& s1.phase is Grace
            &&& s2.phase == Phase::Reaping(Pending::Killed)
            &&& s1.actions(Event::GraceElapsed) == seq![
                Action::Send {
                    signal: TimeoutSignal(SignalId::Kill),
                    target: target_of(config),
                    announce: config.verbose,
                    required: true,
                },
            ]
            &&& s3.phase is Reaped
            &&& s3.outcome.timed_out
            &&& s3.outcome.kill_after_used
            &&& s3.outcome.exit_code == Some(137i32)
        }),
{
}

/// A child that ends after the terminating signal, with no grace period and
/// no override: the exit status is the child's own when it is to be
/// preserved, else the timeout status.
pub proof fn lemma_timeout_without_grace(config: SupervisionConfig, code: i32)
    requires
        !config.kill_after,
        config.status_on_timeout is None,
    ensures
        ({
            let s1 = Supervisor::initial(config).next(Event::DeadlineElapsed);
            let s2 = s1.next(Event::ChildChanged(WaitOutcome::Exited(code)));
            &&& s2.phase is Reaped
            &&& s2.outcome.timed_out
            &&& !s2.outcome.kill_after_used
            &&& s2.outcome.exit_code == Some(
                if config.preserve_status {
                    code
                } else {
                    crate::policy::EXIT_TIMEDOUT
                },
            )
        }),
{
}

/// A status override decides the exit status of every supervision that
/// timed out and ended without the grace-period kill and without a signal to
/// the supervisor: whether the child ends after the terminating signal or
/// during the grace period, and however it ended.
pub proof fn lemma_override_decides(config: SupervisionConfig, w: WaitOutcome, v: i32)
    requires
        config.status_on_timeout == Some(v),
        !(w is StillAlive || w is Stopped),
    ensures
        ({
            let s2 = Supervisor::initial(config).next(Event::DeadlineElapsed).next(Event::ChildChanged(w));
            &&& s2.phase is Reaped
            &&& s2.outcome.timed_out
            &&& s2.outcome.exit_code == Some(v)
        }),
{
}

/// A child that stops before the deadline, with stops watched for: the stop
/// does not end the supervision; the child is sent the "continue" signal, and
/// its later true end is what the exit status reports.
pub proof fn lemma_stop_resumed(config: SupervisionConfig, sig: u8, w: WaitOutcome)
    requires
        config.detect_stopped,
        w is Exited || w is Signaled,
    ensures
        ({
            let s1 = Supervisor::initial(config).next(Event::ChildChanged(WaitOutcome::Stopped(sig)));
            let a1 = Supervisor::initial(config).actions(Event::ChildChanged(WaitOutcome::Stopped(sig)));
            let s2 = s1.next(Event::ChildChanged(w));
            &&& s1.phase == Phase::Reaping(Pending::Exit)
            &&& s1.outcome.stopped_detected
            &&& s1.outcome.exit_code is None
            &&& a1.last() == Action::Send { signal: cont(), target: target_of(config), announce: false, required: false }
            &&& s2.phase is Reaped
            &&& !s2.outcome.timed_out
            &&& s2.outcome.stopped_detected
            &&& s2.outcome.exit_code == Some(
                match w {
                    WaitOutcome::Exited(c) => c,
                    WaitOutcome::Signaled(n) => (128 + n) as i32,
                    _ => 0,
                },
            )
        }),
{
}

} // verus!
