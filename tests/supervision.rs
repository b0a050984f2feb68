use timeout::parse::{parse_duration, DurationParts};
use timeout::supervisor::{
    after_group_send, Action, Event, GroupFollowUp, Pending, Phase, SendResult, SupervisionConfig,
    Supervisor, Target, WaitOutcome, Waiting,
};
use timeout::{SignalId, TimeoutError, TimeoutSignal};

fn config() -> SupervisionConfig {
    SupervisionConfig {
        term_signal: TimeoutSignal(SignalId::Term),
        kill_after: false,
        foreground: false,
        preserve_status: false,
        verbose: false,
        detect_stopped: false,
        no_notify: false,
        status_on_timeout: None,
    }
}

fn send(id: SignalId, target: Target, announce: bool, required: bool) -> Action {
    Action::Send { signal: TimeoutSignal(id), target, announce, required }
}

#[test]
fn scenario_deadline_without_grace() {
    assert_eq!(
        parse_duration("2"),
        Ok(DurationParts { value: "2".to_string(), multiplier: 1 })
    );
    let mut s = Supervisor::new(config());
    assert_eq!(s.waiting(), Waiting::FirstRace);
    let a = s.step(Event::DeadlineElapsed);
    assert_eq!(
        a,
        vec![
            send(SignalId::Term, Target::Group, false, true),
            send(SignalId::Cont, Target::Group, false, false),
        ]
    );
    assert_eq!(s.waiting(), Waiting::Reap);
    let a = s.step(Event::ChildChanged(WaitOutcome::Signaled(15)));
    assert!(a.is_empty());
    assert!(s.outcome.timed_out);
    assert!(!s.outcome.kill_after_used);
    assert_eq!(s.outcome.signal_sent, Some(TimeoutSignal(SignalId::Term)));
    assert_eq!(s.result(), Some(Ok(124)));
}

#[test]
fn scenario_grace_period_kill() {
    assert_eq!(
        parse_duration("1"),
        Ok(DurationParts { value: "1".to_string(), multiplier: 1 })
    );
    let mut s = Supervisor::new(SupervisionConfig { kill_after: true, ..config() });
    s.step(Event::DeadlineElapsed);
    assert_eq!(s.waiting(), Waiting::GraceRace);
    let a = s.step(Event::GraceElapsed);
    assert_eq!(a, vec![send(SignalId::Kill, Target::Group, false, true)]);
    s.step(Event::ChildChanged(WaitOutcome::Signaled(9)));
    assert!(s.outcome.timed_out);
    assert!(s.outcome.kill_after_used);
    assert_eq!(s.result(), Some(Ok(137)));
}

#[test]
fn scenario_quick_exit_keeps_code() {
    assert_eq!(
        parse_duration("5"),
        Ok(DurationParts { value: "5".to_string(), multiplier: 1 })
    );
    let mut s = Supervisor::new(config());
    let a = s.step(Event::ChildChanged(WaitOutcome::Exited(3)));
    assert!(a.is_empty());
    assert!(!s.outcome.timed_out);
    assert_eq!(s.result(), Some(Ok(3)));
    assert_eq!(s.waiting(), Waiting::Nothing);
}

#[test]
fn grace_kill_ignores_status_options() {
    let c = SupervisionConfig { kill_after: true, preserve_status: true, status_on_timeout: Some(3), ..config() };
    let mut s = Supervisor::new(c);
    s.step(Event::DeadlineElapsed);
    s.step(Event::GraceElapsed);
    s.step(Event::ChildChanged(WaitOutcome::Exited(0)));
    assert_eq!(s.result(), Some(Ok(137)));
}

#[test]
fn exit_during_grace_is_a_timeout_without_kill() {
    let mut s = Supervisor::new(SupervisionConfig { kill_after: true, preserve_status: true, ..config() });
    s.step(Event::DeadlineElapsed);
    s.step(Event::ChildChanged(WaitOutcome::Exited(0)));
    assert!(s.outcome.timed_out);
    assert!(!s.outcome.kill_after_used);
    assert_eq!(s.result(), Some(Ok(0)));
}

#[test]
fn preserved_status_after_clean_exit_on_term() {
    let mut s = Supervisor::new(SupervisionConfig { preserve_status: true, ..config() });
    s.step(Event::DeadlineElapsed);
    s.step(Event::ChildChanged(WaitOutcome::Exited(0)));
    assert_eq!(s.result(), Some(Ok(0)));
    let mut s = Supervisor::new(config());
    s.step(Event::DeadlineElapsed);
    s.step(Event::ChildChanged(WaitOutcome::Exited(0)));
    assert_eq!(s.result(), Some(Ok(124)));
}

#[test]
fn override_wins_after_timeout() {
    let mut s = Supervisor::new(SupervisionConfig { preserve_status: true, status_on_timeout: Some(42), ..config() });
    s.step(Event::DeadlineElapsed);
    s.step(Event::ChildChanged(WaitOutcome::Exited(0)));
    assert_eq!(s.result(), Some(Ok(42)));
}

#[test]
fn stop_is_resumed_and_not_final() {
    let c = SupervisionConfig { detect_stopped: true, verbose: true, ..config() };
    let mut s = Supervisor::new(c);
    assert!(s.reports_stops());
    let a = s.step(Event::ChildChanged(WaitOutcome::Stopped(19)));
    assert_eq!(a, vec![Action::ReportStop(19), send(SignalId::Cont, Target::Group, false, false)]);
    assert!(s.outcome.stopped_detected);
    assert_eq!(s.phase, Phase::Reaping(Pending::Exit));
    assert_eq!(s.result(), None);
    s.step(Event::ChildChanged(WaitOutcome::Exited(4)));
    assert_eq!(s.result(), Some(Ok(4)));
}

#[test]
fn stop_without_detection_is_a_failure() {
    let mut s = Supervisor::new(config());
    assert!(!s.reports_stops());
    s.step(Event::ChildChanged(WaitOutcome::Stopped(19)));
    assert!(!s.outcome.stopped_detected);
    assert_eq!(s.result(), Some(Ok(125)));
}

#[test]
fn foreign_signal_is_forwarded() {
    let mut s = Supervisor::new(SupervisionConfig { foreground: true, status_on_timeout: Some(1), ..config() });
    let a = s.step(Event::Interrupted(TimeoutSignal(SignalId::Int)));
    assert_eq!(a, vec![send(SignalId::Int, Target::Process, false, true)]);
    s.step(Event::ChildChanged(WaitOutcome::Exited(0)));
    assert_eq!(s.result(), Some(Ok(130)));
    assert_eq!(s.outcome.signal_sent, Some(TimeoutSignal(SignalId::Int)));
}

#[test]
fn no_notify_skips_the_first_signal() {
    let mut s = Supervisor::new(SupervisionConfig { no_notify: true, verbose: true, kill_after: true, ..config() });
    let a = s.step(Event::DeadlineElapsed);
    assert_eq!(a, vec![Action::ReportSkip]);
    assert_eq!(s.outcome.signal_sent, None);
    let a = s.step(Event::GraceElapsed);
    assert_eq!(a, vec![send(SignalId::Kill, Target::Group, true, true)]);
}

#[test]
fn foreground_sends_to_the_process_only() {
    let mut s = Supervisor::new(SupervisionConfig { foreground: true, verbose: true, ..config() });
    let a = s.step(Event::DeadlineElapsed);
    assert_eq!(a, vec![send(SignalId::Term, Target::Process, true, true)]);
}

#[test]
fn failed_delivery_ends_with_an_error() {
    let mut s = Supervisor::new(config());
    s.step(Event::DeadlineElapsed);
    s.step(Event::SendFailed { signal: TimeoutSignal(SignalId::Term), errno: 1 });
    assert_eq!(
        s.result(),
        Some(Err(TimeoutError::SignalSendFailed { signal: "SIGTERM".to_string(), errno: 1 }))
    );
    assert!(s.step(Event::ChildChanged(WaitOutcome::Exited(0))).is_empty());
    assert_eq!(s.waiting(), Waiting::Nothing);
}

#[test]
fn reaped_supervision_ignores_later_events() {
    let mut s = Supervisor::new(SupervisionConfig { kill_after: true, ..config() });
    s.step(Event::ChildChanged(WaitOutcome::Exited(0)));
    for e in [Event::DeadlineElapsed, Event::GraceElapsed, Event::Interrupted(TimeoutSignal(SignalId::Term))] {
        assert!(s.step(e).is_empty());
        assert_eq!(s.result(), Some(Ok(0)));
    }
}

#[test]
fn group_delivery_retries_once_as_a_process() {
    assert_eq!(after_group_send(SendResult::Delivered), GroupFollowUp::Done);
    assert_eq!(after_group_send(SendResult::NoSuchProcess), GroupFollowUp::RetryProcess);
    assert_eq!(after_group_send(SendResult::Failed(1)), GroupFollowUp::Fail(1));
}
