use capture_supervisor::topology::{
    CheckAction, CheckInput, DisplayMonitor, WatchState, WatchStep, MIN_CHECK_INTERVAL_MS,
    SETTLE_DELAY_MS,
};

/// One whole check with the given probe results, as the watcher runs it.
fn check(m: &mut DisplayMonitor, now_ms: u64, first: i32, second: i32) -> bool {
    let mut probes = vec![second, first];
    let mut action = m.step(CheckInput::Tick(now_ms));
    loop {
        action = match action {
            CheckAction::Report(changed) => return changed,
            CheckAction::Probe | CheckAction::SettleThenProbe => {
                m.step(CheckInput::Probed(probes.pop().expect("at most two probes")))
            }
        };
    }
}

#[test]
fn intervals() {
    assert_eq!(MIN_CHECK_INTERVAL_MS, 250);
    assert_eq!(SETTLE_DELAY_MS, 500);
    assert!(SETTLE_DELAY_MS > MIN_CHECK_INTERVAL_MS);
}

#[test]
fn second_check_within_interval_is_false() {
    let mut m = DisplayMonitor::new(1, 0);
    assert!(!check(&mut m, 300, 1, 1));
    assert!(!check(&mut m, 400, 2, 2));
    assert_eq!(m.confirmed_count(), 1);
    assert!(check(&mut m, 550, 2, 2));
}

#[test]
fn check_right_after_creation_is_rate_limited() {
    let mut m = DisplayMonitor::new(1, 1000);
    assert_eq!(m.step(CheckInput::Tick(1249)), CheckAction::Report(false));
    assert_eq!(m.step(CheckInput::Tick(1250)), CheckAction::Probe);
}

#[test]
fn transient_discrepancy_is_ignored() {
    let mut m = DisplayMonitor::new(2, 0);
    assert!(!check(&mut m, 250, 1, 2));
    assert_eq!(m.confirmed_count(), 2);
}

#[test]
fn sustained_discrepancy_is_reported_once() {
    let mut m = DisplayMonitor::new(2, 0);
    assert!(check(&mut m, 250, 3, 3));
    assert_eq!(m.confirmed_count(), 3);
    assert!(!check(&mut m, 1000, 3, 3));
    assert_eq!(m.confirmed_count(), 3);
}

#[test]
fn confirmed_value_is_the_reprobed_one() {
    let mut m = DisplayMonitor::new(1, 0);
    assert!(check(&mut m, 300, 3, 2));
    assert_eq!(m.confirmed_count(), 2);
}

#[test]
fn clock_going_backwards_is_rate_limited() {
    let mut m = DisplayMonitor::new(1, 5000);
    assert_eq!(m.step(CheckInput::Tick(10)), CheckAction::Report(false));
}

#[test]
fn watcher_acts_once() {
    let mut w = WatchState::new();
    assert!(w.should_check());
    assert_eq!(w.after_check(false), WatchStep::Sleep);
    assert_eq!(w.after_check(true), WatchStep::Fire);
    assert!(!w.should_check());
    assert_eq!(w.after_check(true), WatchStep::Stop);
}

#[test]
fn stopped_watcher_does_not_act() {
    let mut w = WatchState::new();
    w.stop();
    assert!(!w.should_check());
    assert_eq!(w.after_check(true), WatchStep::Stop);
}

#[test]
fn check_asks_for_probes_in_order() {
    let mut m = DisplayMonitor::new(1, 0);
    assert_eq!(m.step(CheckInput::Tick(300)), CheckAction::Probe);
    assert_eq!(m.step(CheckInput::Probed(2)), CheckAction::SettleThenProbe);
    assert_eq!(m.step(CheckInput::Probed(2)), CheckAction::Report(true));
    assert_eq!(m.confirmed_count(), 2);
}

#[test]
fn unexpected_input_repeats_pending_action() {
    let mut m = DisplayMonitor::new(1, 0);
    assert_eq!(m.step(CheckInput::Probed(5)), CheckAction::Report(false));
    assert_eq!(m.confirmed_count(), 1);
    assert_eq!(m.step(CheckInput::Tick(300)), CheckAction::Probe);
    assert_eq!(m.step(CheckInput::Tick(900)), CheckAction::Probe);
    assert_eq!(m.step(CheckInput::Probed(1)), CheckAction::Report(false));
}
