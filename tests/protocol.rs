use capture_supervisor::protocol::{LineEffect, ProtocolReader, SessionOutcome};

fn artifact(o: SessionOutcome) -> Option<String> {
    match o {
        SessionOutcome::Success(p) => Some(p),
        SessionOutcome::Failure => None,
    }
}

#[test]
fn success_token_then_path_gives_success() {
    let mut r = ProtocolReader::new();
    assert!(matches!(r.feed("CAPTURE_SUCCESS"), LineEffect::Continue));
    assert!(!r.is_finished());
    assert!(matches!(r.feed("/tmp/out.png"), LineEffect::Finished));
    assert!(r.is_finished());
    assert_eq!(artifact(r.outcome()), Some("/tmp/out.png".to_string()));
}

#[test]
fn fail_token_ends_reading_with_failure() {
    let mut r = ProtocolReader::new();
    assert!(matches!(r.feed("CAPTURE_FAIL"), LineEffect::Finished));
    assert!(r.is_finished());
    assert!(matches!(r.feed("/tmp/late.png"), LineEffect::Finished));
    assert_eq!(artifact(r.outcome()), None);
}

#[test]
fn stream_closing_without_token_is_failure() {
    let mut r = ProtocolReader::new();
    r.feed("CAPTURE_SUCCESS");
    r.end_of_stream();
    assert!(r.is_finished());
    assert_eq!(artifact(r.outcome()), None);
}

#[test]
fn path_without_pending_success_is_relayed() {
    let mut r = ProtocolReader::new();
    match r.feed("  /tmp/out.png ") {
        LineEffect::Relay(t) => assert_eq!(t, "/tmp/out.png"),
        _ => panic!("expected a relayed line"),
    }
    assert!(!r.is_finished());
}

#[test]
fn mute_request_is_ignored_and_lines_are_trimmed() {
    let mut r = ProtocolReader::new();
    assert!(matches!(r.feed("REQ_MUTE"), LineEffect::Continue));
    assert!(matches!(r.feed(" CAPTURE_SUCCESS\r"), LineEffect::Continue));
    match r.feed("qt: loading plugin") {
        LineEffect::Relay(t) => assert_eq!(t, "qt: loading plugin"),
        _ => panic!("expected a relayed line"),
    }
    assert!(matches!(r.feed("\t/home/u/shot.png\u{a0}"), LineEffect::Finished));
    assert_eq!(artifact(r.outcome()), Some("/home/u/shot.png".to_string()));
}

#[test]
fn tokens_match_case_sensitively() {
    let mut r = ProtocolReader::new();
    assert!(matches!(r.feed("capture_fail"), LineEffect::Relay(_)));
    assert!(matches!(r.feed("capture_success"), LineEffect::Relay(_)));
    assert!(matches!(r.feed("/tmp/x.png"), LineEffect::Relay(_)));
    assert!(!r.is_finished());
}

#[test]
fn fail_after_success_clears_the_pending_success() {
    let mut r = ProtocolReader::new();
    r.feed("CAPTURE_SUCCESS");
    assert!(matches!(r.feed("CAPTURE_FAIL"), LineEffect::Finished));
    assert_eq!(artifact(r.outcome()), None);
}

#[test]
fn exit_codes() {
    assert_eq!(SessionOutcome::Success("/tmp/out.png".to_string()).exit_code(), 0);
    assert_eq!(SessionOutcome::Failure.exit_code(), 1);
}
