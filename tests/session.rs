use capture_supervisor::protocol::SessionOutcome;
use capture_supervisor::session::{Phase, Session, SessionAction, SessionEvent};

fn name(a: &SessionAction) -> &'static str {
    match a {
        SessionAction::AcquireLock => "acquire-lock",
        SessionAction::Mute => "mute",
        SessionAction::Spawn => "spawn",
        SessionAction::StartWatcher => "start-watcher",
        SessionAction::ReadLine => "read-line",
        SessionAction::Relay(_) => "relay",
        SessionAction::StopWatcher => "stop-watcher",
        SessionAction::WaitChild => "wait-child",
        SessionAction::Unmute => "unmute",
        SessionAction::ReleaseLock => "release-lock",
        SessionAction::Exit(_) => "exit",
    }
}

/// Drives a session through `events`, recording the action asked for after each.
fn drive(events: Vec<SessionEvent>) -> (Session, Vec<&'static str>, Option<SessionOutcome>) {
    let mut s = Session::new();
    let mut actions = vec![name(&s.pending_action())];
    let mut outcome = None;
    for e in events {
        let a = s.step(e);
        actions.push(name(&a));
        if let SessionAction::Exit(o) = a {
            outcome = Some(o);
        }
    }
    (s, actions, outcome)
}

fn running_events() -> Vec<SessionEvent> {
    vec![SessionEvent::LockAcquired, SessionEvent::Performed, SessionEvent::Spawned, SessionEvent::Performed]
}

fn cleanup_events() -> Vec<SessionEvent> {
    vec![SessionEvent::Performed, SessionEvent::Performed, SessionEvent::Performed, SessionEvent::Performed]
}

#[test]
fn successful_capture_reports_path_and_cleans_up() {
    let mut events = running_events();
    events.push(SessionEvent::Line("REQ_MUTE".to_string()));
    events.push(SessionEvent::Line("CAPTURE_SUCCESS".to_string()));
    events.push(SessionEvent::Line("/tmp/out.png".to_string()));
    events.extend(cleanup_events());
    let (s, actions, outcome) = drive(events);
    assert_eq!(
        actions,
        vec![
            "acquire-lock", "mute", "spawn", "start-watcher", "read-line", "read-line",
            "read-line", "stop-watcher", "wait-child", "unmute", "release-lock", "exit",
        ]
    );
    match outcome {
        Some(SessionOutcome::Success(p)) => assert_eq!(p, "/tmp/out.png"),
        _ => panic!("expected a success"),
    }
    assert_eq!(s.phase(), Phase::Done);
    assert!(!s.is_muted());
    assert!(!s.holds_lock());
}

#[test]
fn failed_capture_stops_reading_at_once() {
    let mut events = running_events();
    events.push(SessionEvent::Line("CAPTURE_FAIL".to_string()));
    let (s, actions, _) = drive(events);
    assert_eq!(actions.last(), Some(&"stop-watcher"));
    assert_eq!(s.phase(), Phase::StoppingWatcher);
    let mut events = running_events();
    events.push(SessionEvent::Line("CAPTURE_FAIL".to_string()));
    events.extend(cleanup_events());
    let (s, _, outcome) = drive(events);
    assert!(matches!(outcome, Some(SessionOutcome::Failure)));
    assert!(!s.is_muted());
    assert!(!s.holds_lock());
}

#[test]
fn killed_child_gives_failure() {
    let mut events = running_events();
    events.push(SessionEvent::Line("CAPTURE_SUCCESS".to_string()));
    events.push(SessionEvent::StreamClosed);
    events.extend(cleanup_events());
    let (s, _, outcome) = drive(events);
    assert!(matches!(outcome, Some(SessionOutcome::Failure)));
    assert_eq!(s.phase(), Phase::Done);
    assert!(!s.is_muted());
}

#[test]
fn read_error_gives_failure() {
    let mut events = running_events();
    events.push(SessionEvent::ReadFailed);
    events.extend(cleanup_events());
    let (_, _, outcome) = drive(events);
    assert!(matches!(outcome, Some(SessionOutcome::Failure)));
}

#[test]
fn diagnostic_lines_are_relayed() {
    let mut s = Session::new();
    for e in running_events() {
        s.step(e);
    }
    match s.step(SessionEvent::Line(" qt: warning ".to_string())) {
        SessionAction::Relay(t) => assert_eq!(t, "qt: warning"),
        _ => panic!("expected a relay"),
    }
    assert!(matches!(s.step(SessionEvent::Performed), SessionAction::ReadLine));
}

#[test]
fn spawn_error_unmutes_and_releases_lock() {
    let events = vec![
        SessionEvent::LockAcquired,
        SessionEvent::Performed,
        SessionEvent::SpawnFailed,
        SessionEvent::Performed,
        SessionEvent::Performed,
    ];
    let (s, actions, outcome) = drive(events);
    assert_eq!(actions, vec!["acquire-lock", "mute", "spawn", "unmute", "release-lock", "exit"]);
    assert!(matches!(outcome, Some(SessionOutcome::Failure)));
    assert!(!s.is_muted());
    assert!(!s.holds_lock());
}

#[test]
fn lock_contention_still_unmutes() {
    let (s, actions, outcome) = drive(vec![SessionEvent::LockRefused, SessionEvent::Performed]);
    assert_eq!(actions, vec!["acquire-lock", "unmute", "exit"]);
    assert!(matches!(outcome, Some(SessionOutcome::Failure)));
    assert_eq!(s.phase(), Phase::Done);
    assert!(!s.is_muted());
    assert!(!s.holds_lock());
}

#[test]
fn audio_is_muted_before_spawn_and_while_child_runs() {
    let mut s = Session::new();
    s.step(SessionEvent::LockAcquired);
    assert!(s.is_muted());
    assert!(matches!(s.step(SessionEvent::Performed), SessionAction::Spawn));
    assert!(s.is_muted());
    s.step(SessionEvent::Spawned);
    s.step(SessionEvent::Performed);
    assert_eq!(s.phase(), Phase::Racing);
    assert!(s.is_muted());
}

#[test]
fn unexpected_event_repeats_pending_action() {
    let mut s = Session::new();
    assert!(matches!(s.step(SessionEvent::Spawned), SessionAction::AcquireLock));
    assert_eq!(s.phase(), Phase::Init);
    s.step(SessionEvent::LockAcquired);
    assert!(matches!(s.step(SessionEvent::LockAcquired), SessionAction::Mute));
    assert_eq!(s.phase(), Phase::LockHeld);
}
