use timeout::policy::{
    child_code, final_exit_code, launch_failure_code, timeout_exit_code, ChildStatus, Ending,
    LaunchFailure, EXIT_CANCELED, EXIT_CANNOT_INVOKE, EXIT_ENOENT, EXIT_TIMEDOUT,
};
use timeout::{SignalId, TimeoutSignal};

#[test]
fn timeout_code_prefers_override_then_preserved_status() {
    assert_eq!(timeout_exit_code(0, false, None), 124);
    assert_eq!(timeout_exit_code(0, true, None), 0);
    assert_eq!(timeout_exit_code(143, true, None), 143);
    assert_eq!(timeout_exit_code(0, true, Some(7)), 7);
    assert_eq!(timeout_exit_code(0, false, Some(-1)), -1);
}

#[test]
fn child_codes_follow_the_shell_convention() {
    assert_eq!(child_code(ChildStatus::Exited(3)), Some(3));
    assert_eq!(child_code(ChildStatus::Signaled(15)), Some(143));
    assert_eq!(child_code(ChildStatus::Unknown), None);
}

#[test]
fn each_ending_has_its_status() {
    let term = TimeoutSignal(SignalId::Term);
    let int = TimeoutSignal(SignalId::Int);
    assert_eq!(final_exit_code(Ending::Finished(ChildStatus::Exited(3)), true, Some(9)), 3);
    assert_eq!(final_exit_code(Ending::Finished(ChildStatus::Signaled(6)), false, None), 134);
    assert_eq!(final_exit_code(Ending::Finished(ChildStatus::Unknown), false, None), EXIT_CANCELED);
    assert_eq!(final_exit_code(Ending::TimedOut(ChildStatus::Signaled(15)), false, None), EXIT_TIMEDOUT);
    assert_eq!(final_exit_code(Ending::TimedOut(ChildStatus::Signaled(15)), true, None), 143);
    assert_eq!(final_exit_code(Ending::TimedOut(ChildStatus::Exited(0)), true, None), 0);
    assert_eq!(final_exit_code(Ending::TimedOut(ChildStatus::Unknown), true, None), EXIT_TIMEDOUT);
    assert_eq!(final_exit_code(Ending::TimedOut(ChildStatus::Unknown), true, Some(5)), 5);
    assert_eq!(final_exit_code(Ending::GraceKilled, true, Some(5)), 137);
    assert_eq!(final_exit_code(Ending::Forwarded(int), true, Some(5)), 130);
    assert_eq!(final_exit_code(Ending::Forwarded(term), false, None), 143);
}

#[test]
fn override_wins_after_any_timed_out_end() {
    for st in [ChildStatus::Exited(0), ChildStatus::Exited(2), ChildStatus::Signaled(9), ChildStatus::Unknown] {
        for preserve in [false, true] {
            assert_eq!(final_exit_code(Ending::TimedOut(st), preserve, Some(42)), 42);
        }
    }
}

#[test]
fn launch_failures_have_their_own_codes() {
    assert_eq!(launch_failure_code(LaunchFailure::NotFound), EXIT_ENOENT);
    assert_eq!(launch_failure_code(LaunchFailure::PermissionDenied), EXIT_CANNOT_INVOKE);
    assert_eq!(launch_failure_code(LaunchFailure::Other), EXIT_CANNOT_INVOKE);
    assert_eq!((EXIT_ENOENT, EXIT_CANNOT_INVOKE), (127, 126));
}
