//! Debounced detection of display topology changes.
//!
//! A check is rate limited, probes the number of connected displays, and
//! reports a change only when a second probe after a settle delay still
//! disagrees with the last confirmed count. Probing, sleeping and reading the
//! clock are the caller's: the monitor decides.
use vstd::prelude::*;

verus! {

/// Checks closer together than this (in milliseconds) return at once.
pub const MIN_CHECK_INTERVAL_MS: u64 = 250;

/// How long (in milliseconds) a raw change must persist before it is confirmed.
pub const SETTLE_DELAY_MS: u64 = 500;

/// How long (in milliseconds) the watcher sleeps between two checks.
pub const WATCH_INTERVAL_MS: u64 = 300;

/// Where a check stands.
#[derive(Clone, Copy, PartialEq, Eq, Structural, Debug)]
pub enum CheckPhase {
    /// No check under way.
    Idle,
    /// Waiting for the first probe of the display count.
    Probing,
    /// Waiting for the probe made after the settle delay.
    Settling,
}

/// What the caller hands the monitor.
#[derive(Clone, Copy, PartialEq, Eq, Structural, Debug)]
pub enum CheckInput {
    /// Start a check: the monotonic clock reads this many milliseconds.
    Tick(u64),
    /// The display count that the requested probe returned.
    Probed(i32),
}

/// What the monitor asks the caller for.
#[derive(Clone, Copy, PartialEq, Eq, Structural, Debug)]
pub enum CheckAction {
    /// The check is over: whether a topology change was confirmed.
    Report(bool),
    /// Probe the display count now.
    Probe,
    /// Wait the settle delay, then probe the display count.
    SettleThenProbe,
}

/// The monitor's state, as values.
pub struct MonitorView {
    /// The display count that the last confirmed change settled on.
    pub confirmed: i32,
    /// Monotonic clock reading, in milliseconds, of the last check that probed.
    pub last_check_ms: u64,
    /// Where the check under way stands.
    pub phase: CheckPhase,
}

/// A check at `now_ms` returns without probing.
pub open spec fn rate_limited(v: MonitorView, now_ms: u64) -> bool {
    (now_ms as int) < v.last_check_ms + MIN_CHECK_INTERVAL_MS
}

/// The state after a check at `now_ms` has got past the rate limit.
pub open spec fn after_begin(v: MonitorView, now_ms: u64) -> MonitorView {
    MonitorView { last_check_ms: now_ms, ..v }
}

/// The state after the settle-delay probe returned `count`.
pub open spec fn after_confirm(v: MonitorView, count: i32) -> MonitorView {
    if count != v.confirmed {
        MonitorView { confirmed: count, ..v }
    } else {
        v
    }
}

/// One whole check at `now_ms`: the state after it and whether it reports a
/// confirmed change, where `first` is what the probe returns and `second` what
/// the probe after the settle delay returns (each used only if reached).
pub open spec fn check_model(v: MonitorView, now_ms: u64, first: i32, second: i32) -> (
    MonitorView,
    bool,
) {
    if rate_limited(v, now_ms) {
        (v, false)
    } else {
        let b = after_begin(v, now_ms);
        if first == b.confirmed {
            (b, false)
        } else {
            (after_confirm(b, second), second != b.confirmed)
        }
    }
}

/// The action that a monitor in state `v` waits on.
pub open spec fn pending_check_action(v: MonitorView) -> CheckAction {
    match v.phase {
        CheckPhase::Idle => CheckAction::Report(false),
        CheckPhase::Probing => CheckAction::Probe,
        CheckPhase::Settling => CheckAction::SettleThenProbe,
    }
}

/// The monitor after input `i` in state `v`, and what it asks for next. An
/// input that does not answer the pending action changes nothing, and the
/// pending action is asked for again.
pub open spec fn check_step(v: MonitorView, i: CheckInput) -> (MonitorView, CheckAction) {
    match (v.phase, i) {
        (CheckPhase::Idle, CheckInput::Tick(now_ms)) => if rate_limited(v, now_ms) {
            (v, CheckAction::Report(false))
        } else {
            (
                MonitorView { phase: CheckPhase::Probing, ..after_begin(v, now_ms) },
                CheckAction::Probe,
            )
        },
        (CheckPhase::Probing, CheckInput::Probed(count)) => if count == v.confirmed {
            (MonitorView { phase: CheckPhase::Idle, ..v }, CheckAction::Report(false))
        } else {
            (MonitorView { phase: CheckPhase::Settling, ..v }, CheckAction::SettleThenProbe)
        },
        (CheckPhase::Settling, CheckInput::Probed(count)) => (
            MonitorView { phase: CheckPhase::Idle, ..after_confirm(v, count) },
            CheckAction::Report(count != v.confirmed),
        ),
        _ => (v, pending_check_action(v)),
    }
}

/// Debounced topology-change detector.
pub struct DisplayMonitor {
    last_count: i32,
    last_check_ms: u64,
    phase: CheckPhase,
}

impl View for DisplayMonitor {
    type V = MonitorView;

    closed spec fn view(&self) -> MonitorView {
        MonitorView {
            confirmed: self.last_count,
            last_check_ms: self.last_check_ms,
            phase: self.phase,
        }
    }
}

impl DisplayMonitor {
    /// A monitor whose baseline is `baseline` displays, as of `now_ms`.
    pub fn new(baseline: i32, now_ms: u64) -> (r: DisplayMonitor)
        ensures
            r@ == (MonitorView {
                confirmed: baseline,
                last_check_ms: now_ms,
                phase: CheckPhase::Idle,
            }),
    {
        DisplayMonitor { last_count: baseline, last_check_ms: now_ms, phase: CheckPhase::Idle }
    }

    /// The count that the last confirmed change settled on.
    pub fn confirmed_count(&self) -> (r: i32)
        ensures
            r == self@.confirmed,
    {
        self.last_count
    }

    /// Takes a clock reading or a probe result and says what to do next. A
    /// check starts with `Tick` and ends with `Report`: it reports no change
    /// when the last probing check is less than the minimum interval ago, or
    /// when the probe agrees with the confirmed count; otherwise the count is
    /// probed again after the settle delay, and a change is confirmed, and
    /// becomes the new baseline, only if it still differs.
    pub fn step(&mut self, input: CheckInput) -> (r: CheckAction)
        ensures
            (final(self)@, r) == check_step(old(self)@, input),
    {
        match (self.phase, input) {
            (CheckPhase::Idle, CheckInput::Tick(now_ms)) => {
                if now_ms.saturating_sub(self.last_check_ms) < MIN_CHECK_INTERVAL_MS {
                    CheckAction::Report(false)
                } else {
                    self.last_check_ms = now_ms;
                    self.phase = CheckPhase::Probing;
                    CheckAction::Probe
                }
            },
            (CheckPhase::Probing, CheckInput::Probed(count)) => {
                if count == self.last_count {
                    self.phase = CheckPhase::Idle;
                    CheckAction::Report(false)
                } else {
                    self.phase = CheckPhase::Settling;
                    CheckAction::SettleThenProbe
                }
            },
            (CheckPhase::Settling, CheckInput::Probed(count)) => {
                let changed = count != self.last_count;
                if changed {
                    self.last_count = count;
                }
                self.phase = CheckPhase::Idle;
                CheckAction::Report(changed)
            },
            (CheckPhase::Idle, _) => CheckAction::Report(false),
            (CheckPhase::Probing, _) => CheckAction::Probe,
            (CheckPhase::Settling, _) => CheckAction::SettleThenProbe,
        }
    }
}

/// Stepping an idle monitor through one check (a clock reading, then the
/// probes it asks for, answered with `first` and then `second`) ends in the
/// report and the state that `check_model` gives, with the monitor idle again.
pub proof fn lemma_step_follows_check_model(v: MonitorView, now_ms: u64, first: i32, second: i32)
    requires
        v.phase == CheckPhase::Idle,
    ensures
        ({
            let (v1, a1) = check_step(v, CheckInput::Tick(now_ms));
            let (v2, a2) = check_step(v1, CheckInput::Probed(first));
            let (v3, a3) = check_step(v2, CheckInput::Probed(second));
            let (m, changed) = check_model(v, now_ms, first, second);
            &&& m.phase == CheckPhase::Idle
            &&& a1 == CheckAction::Report(changed) ==> v1 == m
            &&& a1 == CheckAction::Report(changed) || a1 == CheckAction::Probe
            &&& a1 == CheckAction::Probe ==> {
                ||| a2 == CheckAction::Report(changed) && v2 == m
                ||| a2 == CheckAction::SettleThenProbe && a3 == CheckAction::Report(changed)
                    && v3 == m
            }
        }),
{
}

/// A check that follows a probing check by less than the minimum interval
/// reports no change and leaves the state as it is, whatever either probe says.
pub proof fn lemma_second_check_within_interval(
    v: MonitorView,
    t1: u64,
    t2: u64,
    first1: i32,
    second1: i32,
    first2: i32,
    second2: i32,
)
    requires
        !rate_limited(v, t1),
        t2 < t1 + MIN_CHECK_INTERVAL_MS,
    ensures
        ({
            let w = check_model(v, t1, first1, second1).0;
            check_model(w, t2, first2, second2) == (w, false)
        }),
{
}

/// A discrepancy that has reverted by the settle-delay probe is a glitch: the
/// check reports no change and the confirmed count stays.
pub proof fn lemma_transient_discrepancy_ignored(
    v: MonitorView,
    now_ms: u64,
    first: i32,
    second: i32,
)
    requires
        !rate_limited(v, now_ms),
        first != v.confirmed,
        second == v.confirmed,
    ensures
        check_model(v, now_ms, first, second).1 == false,
        check_model(v, now_ms, first, second).0.confirmed == v.confirmed,
{
}

/// A discrepancy that persists through the settle-delay probe is reported, the
/// confirmed count becomes the new value, and a later check that keeps seeing
/// that value reports nothing more.
pub proof fn lemma_sustained_discrepancy_reported_once(
    v: MonitorView,
    now_ms: u64,
    first: i32,
    second: i32,
    later_ms: u64,
    later_second: i32,
)
    requires
        !rate_limited(v, now_ms),
        first != v.confirmed,
        second != v.confirmed,
    ensures
        check_model(v, now_ms, first, second).1 == true,
        check_model(v, now_ms, first, second).0.confirmed == second,
        check_model(check_model(v, now_ms, first, second).0, later_ms, second, later_second).1
            == false,
{
}

/// What the watcher does after a check.
#[derive(Clone, Copy, PartialEq, Eq, Structural, Debug)]
pub enum WatchStep {
    /// A change was confirmed: end the capture process, once.
    Fire,
    /// Nothing changed: sleep one interval and check again.
    Sleep,
    /// The watcher is over.
    Stop,
}

/// The watcher's state, as values.
pub struct WatchView {
    /// The supervisor still wants the watcher to run.
    pub running: bool,
    /// The watcher has acted on a change.
    pub fired: bool,
}

/// The watcher after a check that did (`changed`) or did not confirm a change.
pub open spec fn after_watch(v: WatchView, changed: bool) -> (WatchView, WatchStep) {
    if !v.running || v.fired {
        (v, WatchStep::Stop)
    } else if changed {
        (WatchView { fired: true, ..v }, WatchStep::Fire)
    } else {
        (v, WatchStep::Sleep)
    }
}

/// The decisions of the background watcher, which acts at most once.
pub struct WatchState {
    running: bool,
    fired: bool,
}

impl View for WatchState {
    type V = WatchView;

    closed spec fn view(&self) -> WatchView {
        WatchView { running: self.running, fired: self.fired }
    }
}

impl WatchState {
    pub fn new() -> (r: WatchState)
        ensures
            r@ == (WatchView { running: true, fired: false }),
    {
        WatchState { running: true, fired: false }
    }

    /// The supervisor asked the watcher to stop.
    pub fn stop(&mut self)
        ensures
            final(self)@ == (WatchView { running: false, ..old(self)@ }),
    {
        self.running = false;
    }

    /// Whether another check is to be made.
    pub fn should_check(&self) -> (r: bool)
        ensures
            r == (self@.running && !self@.fired),
    {
        self.running && !self.fired
    }

    /// Takes the result of a check and says what to do.
    pub fn after_check(&mut self, changed: bool) -> (r: WatchStep)
        ensures
            (final(self)@, r) == after_watch(old(self)@, changed),
    {
        if !self.running || self.fired {
            WatchStep::Stop
        } else if changed {
            self.fired = true;
            WatchStep::Fire
        } else {
            WatchStep::Sleep
        }
    }
}

/// The watcher after each check result of `changes` in turn.
pub open spec fn watch_run(v: WatchView, changes: Seq<bool>) -> WatchView
    decreases changes.len(),
{
    if changes.len() == 0 {
        v
    } else {
        watch_run(after_watch(v, changes[0]).0, changes.drop_first())
    }
}

/// Once the watcher has acted, whatever later checks report, it never acts
/// again: every later step is a stop.
pub proof fn lemma_watcher_fires_once(v: WatchView, changes: Seq<bool>, changed: bool)
    requires
        v.fired,
    ensures
        watch_run(v, changes) == v,
        after_watch(watch_run(v, changes), changed).1 == WatchStep::Stop,
    decreases changes.len(),
{
    if changes.len() > 0 {
        lemma_watcher_fires_once(after_watch(v, changes[0]).0, changes.drop_first(), changed);
    }
}

} // verus!
