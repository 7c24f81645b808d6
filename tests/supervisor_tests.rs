use tool_supervisor::pattern::OsFamily;
use tool_supervisor::supervisor::{
    classify_exit, Action, Event, Phase, RunOutcome, Supervisor, RETRY_DELAY_SECONDS,
};

fn args(items: &[&str]) -> Vec<String> {
    items.iter().map(|s| s.to_string()).collect()
}

#[test]
fn exit_classification() {
    assert_eq!(classify_exit(Some(0)), RunOutcome::Completed(0));
    assert_eq!(classify_exit(Some(3)), RunOutcome::CrashedOrFailed(Some(3)));
    assert_eq!(classify_exit(Some(-1)), RunOutcome::CrashedOrFailed(Some(-1)));
    assert_eq!(classify_exit(None), RunOutcome::CrashedOrFailed(None));
}

#[test]
fn cycle_starts_with_cleaning() {
    let s = Supervisor::new("Gamma", OsFamily::Unix);
    match s.next_action() {
        Action::Clean(p) => assert_eq!(p, "/gamma/agent"),
        _ => panic!("expected a cleaning action"),
    }
}

#[test]
fn resolution_failure_never_spawns() {
    let mut s = Supervisor::new("beta", OsFamily::Unix);
    s.on_event(Event::Cleaned);
    assert!(matches!(s.next_action(), Action::ResolveArgs));
    s.on_event(Event::ArgsFailed);
    assert!(matches!(s.phase, Phase::Backoff));
    assert!(s.spawn_args().is_none());
    assert!(matches!(s.next_action(), Action::Sleep(5)));
    s.on_event(Event::Slept);
    assert!(matches!(s.next_action(), Action::Clean(_)));
    assert_eq!(s.last_outcome, None);
}

#[test]
fn successful_exit_is_retried() {
    let mut s = Supervisor::new("gamma", OsFamily::Unix);
    s.on_event(Event::Cleaned);
    s.on_event(Event::ArgsResolved(args(&["--port", "8080"])));
    assert!(matches!(s.next_action(), Action::Spawn));
    assert_eq!(s.spawn_args(), Some(&args(&["--port", "8080"])));
    s.on_event(Event::Spawned);
    assert!(matches!(s.next_action(), Action::Wait));
    s.on_event(Event::Exited(Some(0)));
    assert_eq!(s.last_outcome, Some(RunOutcome::Completed(0)));
    assert!(matches!(s.next_action(), Action::Sleep(RETRY_DELAY_SECONDS)));
    s.on_event(Event::Slept);
    assert!(!s.is_stopped());
    assert!(matches!(s.phase, Phase::Cleaning));
}

#[test]
fn spawn_and_wait_failures_are_retried() {
    let mut s = Supervisor::new("delta", OsFamily::Windows);
    s.on_event(Event::Cleaned);
    s.on_event(Event::ArgsResolved(args(&[])));
    s.on_event(Event::SpawnFailed);
    assert_eq!(s.last_outcome, Some(RunOutcome::SpawnError));
    assert!(matches!(s.phase, Phase::Backoff));
    s.on_event(Event::Slept);
    s.on_event(Event::Cleaned);
    s.on_event(Event::ArgsResolved(args(&["-v"])));
    s.on_event(Event::Spawned);
    s.on_event(Event::WaitFailed);
    assert_eq!(s.last_outcome, Some(RunOutcome::WaitError));
    assert!(matches!(s.phase, Phase::Backoff));
}

#[test]
fn crash_is_recorded() {
    let mut s = Supervisor::new("eps", OsFamily::Unix);
    s.on_event(Event::Cleaned);
    s.on_event(Event::ArgsResolved(args(&[])));
    s.on_event(Event::Spawned);
    s.on_event(Event::Exited(Some(137)));
    assert_eq!(s.last_outcome, Some(RunOutcome::CrashedOrFailed(Some(137))));
}

#[test]
fn unrelated_event_is_ignored() {
    let mut s = Supervisor::new("zeta", OsFamily::Unix);
    s.on_event(Event::Spawned);
    assert!(matches!(s.phase, Phase::Cleaning));
    s.on_event(Event::Slept);
    assert!(matches!(s.phase, Phase::Cleaning));
}

#[test]
fn custom_delay() {
    let mut s = Supervisor::new("eta", OsFamily::Unix).with_retry_delay(1);
    s.on_event(Event::Cleaned);
    s.on_event(Event::ArgsFailed);
    assert!(matches!(s.next_action(), Action::Sleep(1)));
}

#[test]
fn cancel_at_boundary_stops_at_once() {
    let mut s = Supervisor::new("theta", OsFamily::Unix);
    s.cancel();
    assert!(s.is_stopped());
    assert!(matches!(s.next_action(), Action::Halt));
}

#[test]
fn cancel_while_running_stops_at_next_boundary() {
    let mut s = Supervisor::new("iota", OsFamily::Unix);
    s.on_event(Event::Cleaned);
    s.on_event(Event::ArgsResolved(args(&[])));
    s.on_event(Event::Spawned);
    s.cancel();
    assert!(!s.is_stopped());
    assert!(matches!(s.next_action(), Action::Wait));
    s.on_event(Event::Exited(Some(1)));
    assert!(s.is_stopped());
    assert_eq!(s.last_outcome, Some(RunOutcome::CrashedOrFailed(Some(1))));
}
