//! The lifecycle of one capture session, as a state machine.
//!
//! The session asks for one action at a time (take the lock, mute, spawn the
//! capture process, read a line, ...); the caller carries it out and answers
//! with the event that came of it. Every path out, normal or not, goes through
//! unmuting and releasing the lock before the session is done.
use vstd::prelude::*;

use crate::protocol::{
    after_line,
    initial_reader,
    EffectView,
    LineEffect,
    ProtocolReader,
    ReaderView,
    SessionOutcome,
};

verus! {

/// Where a session stands.
#[derive(Clone, Copy, PartialEq, Eq, Structural, Debug)]
pub enum Phase {
    /// Nothing done yet; the instance lock is asked for.
    Init,
    /// The lock is held; audio is being muted.
    LockHeld,
    /// Audio is muted; the capture process is being spawned.
    AudioMuted,
    /// The capture process runs; the display watcher is being started.
    ChildSpawned,
    /// The watcher runs and the child's output is read.
    Racing,
    /// Reading is over; the watcher is being stopped.
    StoppingWatcher,
    /// Waiting for the capture process to exit.
    WaitingChild,
    /// Audio is being unmuted.
    Unmuting,
    /// The instance lock is being released.
    ReleasingLock,
    /// The session is over.
    Done,
}

/// What came of the last action.
pub enum SessionEvent {
    /// The instance lock was acquired.
    LockAcquired,
    /// The instance lock could not be had (another instance runs, or no lock
    /// directory could be resolved).
    LockRefused,
    /// The requested action, which reports nothing, was carried out.
    Performed,
    /// The capture process was spawned.
    Spawned,
    /// The capture binary was not found, or could not be spawned.
    SpawnFailed,
    /// The child wrote a line.
    Line(String),
    /// The child's output stream closed (also when the child was killed).
    StreamClosed,
    /// Reading the child's output failed.
    ReadFailed,
}

/// What the caller does next.
pub enum SessionAction {
    AcquireLock,
    Mute,
    Spawn,
    StartWatcher,
    ReadLine,
    /// Hand this diagnostic line on to standard error, then go on reading.
    Relay(String),
    StopWatcher,
    WaitChild,
    Unmute,
    ReleaseLock,
    /// The session is over, with this outcome.
    Exit(SessionOutcome),
}

pub enum EventView {
    LockAcquired,
    LockRefused,
    Performed,
    Spawned,
    SpawnFailed,
    Line(Seq<char>),
    StreamClosed,
    ReadFailed,
}

pub enum ActionView {
    AcquireLock,
    Mute,
    Spawn,
    StartWatcher,
    ReadLine,
    Relay(Seq<char>),
    StopWatcher,
    WaitChild,
    Unmute,
    ReleaseLock,
    Exit(Option<Seq<char>>),
}

impl View for SessionEvent {
    type V = EventView;

    open spec fn view(&self) -> EventView {
        match self {
            SessionEvent::LockAcquired => EventView::LockAcquired,
            SessionEvent::LockRefused => EventView::LockRefused,
            SessionEvent::Performed => EventView::Performed,
            SessionEvent::Spawned => EventView::Spawned,
            SessionEvent::SpawnFailed => EventView::SpawnFailed,
            SessionEvent::Line(l) => EventView::Line(l@),
            SessionEvent::StreamClosed => EventView::StreamClosed,
            SessionEvent::ReadFailed => EventView::ReadFailed,
        }
    }
}

impl View for SessionAction {
    type V = ActionView;

    open spec fn view(&self) -> ActionView {
        match self {
            SessionAction::AcquireLock => ActionView::AcquireLock,
            SessionAction::Mute => ActionView::Mute,
            SessionAction::Spawn => ActionView::Spawn,
            SessionAction::StartWatcher => ActionView::StartWatcher,
            SessionAction::ReadLine => ActionView::ReadLine,
            SessionAction::Relay(l) => ActionView::Relay(l@),
            SessionAction::StopWatcher => ActionView::StopWatcher,
            SessionAction::WaitChild => ActionView::WaitChild,
            SessionAction::Unmute => ActionView::Unmute,
            SessionAction::ReleaseLock => ActionView::ReleaseLock,
            SessionAction::Exit(o) => ActionView::Exit(o.artifact()),
        }
    }
}

/// The session's state, as values.
pub struct SessionView {
    pub phase: Phase,
    /// The instance lock is held.
    pub lock_held: bool,
    /// Audio is logically muted.
    pub muted: bool,
    /// The display watcher runs.
    pub watcher_active: bool,
    /// The interpreter of the child's output.
    pub reader: ReaderView,
}

pub open spec fn initial_session() -> SessionView {
    SessionView {
        phase: Phase::Init,
        lock_held: false,
        muted: false,
        watcher_active: false,
        reader: initial_reader(),
    }
}

/// The action that a session in state `v` waits on.
pub open spec fn pending_action(v: SessionView) -> ActionView {
    match v.phase {
        Phase::Init => ActionView::AcquireLock,
        Phase::LockHeld => ActionView::Mute,
        Phase::AudioMuted => ActionView::Spawn,
        Phase::ChildSpawned => ActionView::StartWatcher,
        Phase::Racing => ActionView::ReadLine,
        Phase::StoppingWatcher => ActionView::StopWatcher,
        Phase::WaitingChild => ActionView::WaitChild,
        Phase::Unmuting => ActionView::Unmute,
        Phase::ReleasingLock => ActionView::ReleaseLock,
        Phase::Done => ActionView::Exit(v.reader.path),
    }
}

/// Reading is over: the watcher is stopped next.
pub open spec fn stop_reading(v: SessionView, reader: ReaderView) -> (SessionView, ActionView) {
    (
        SessionView { phase: Phase::StoppingWatcher, watcher_active: false, reader, ..v },
        ActionView::StopWatcher,
    )
}

/// Audio is unmuted next, whatever came before.
pub open spec fn begin_unmute(v: SessionView) -> (SessionView, ActionView) {
    (SessionView { phase: Phase::Unmuting, muted: false, ..v }, ActionView::Unmute)
}

/// The session after event `e` in state `v`, and the action it asks for next.
/// An event that does not answer the pending action changes nothing, and the
/// pending action is asked for again.
pub open spec fn next(v: SessionView, e: EventView) -> (SessionView, ActionView) {
    match (v.phase, e) {
        (Phase::Init, EventView::LockAcquired) => (
            SessionView { phase: Phase::LockHeld, lock_held: true, muted: true, ..v },
            ActionView::Mute,
        ),
        (Phase::Init, EventView::LockRefused) => begin_unmute(v),
        (Phase::LockHeld, EventView::Performed) => (
            SessionView { phase: Phase::AudioMuted, ..v },
            ActionView::Spawn,
        ),
        (Phase::AudioMuted, EventView::Spawned) => (
            SessionView { phase: Phase::ChildSpawned, ..v },
            ActionView::StartWatcher,
        ),
        (Phase::AudioMuted, EventView::SpawnFailed) => begin_unmute(v),
        (Phase::ChildSpawned, EventView::Performed) => (
            SessionView { phase: Phase::Racing, watcher_active: true, ..v },
            ActionView::ReadLine,
        ),
        (Phase::Racing, EventView::Performed) => (v, ActionView::ReadLine),
        (Phase::Racing, EventView::Line(l)) => {
            let (r, eff) = after_line(v.reader, l);
            match eff {
                EffectView::Continue => (SessionView { reader: r, ..v }, ActionView::ReadLine),
                EffectView::Relay(t) => (SessionView { reader: r, ..v }, ActionView::Relay(t)),
                EffectView::Finished => stop_reading(v, r),
            }
        },
        (Phase::Racing, EventView::StreamClosed) => stop_reading(
            v,
            ReaderView { finished: true, ..v.reader },
        ),
        (Phase::Racing, EventView::ReadFailed) => stop_reading(
            v,
            ReaderView { finished: true, ..v.reader },
        ),
        (Phase::StoppingWatcher, EventView::Performed) => (
            SessionView { phase: Phase::WaitingChild, ..v },
            ActionView::WaitChild,
        ),
        (Phase::WaitingChild, EventView::Performed) => begin_unmute(v),
        (Phase::Unmuting, EventView::Performed) => if v.lock_held {
            (SessionView { phase: Phase::ReleasingLock, ..v }, ActionView::ReleaseLock)
        } else {
            (SessionView { phase: Phase::Done, ..v }, ActionView::Exit(v.reader.path))
        },
        (Phase::ReleasingLock, EventView::Performed) => (
            SessionView { phase: Phase::Done, lock_held: false, ..v },
            ActionView::Exit(v.reader.path),
        ),
        _ => (v, pending_action(v)),
    }
}

/// The session after each of `events` in turn.
pub open spec fn run(v: SessionView, events: Seq<EventView>) -> SessionView
    decreases events.len(),
{
    if events.len() == 0 {
        v
    } else {
        run(next(v, events[0]).0, events.drop_first())
    }
}

/// The resources that each phase holds: audio is muted exactly from the
/// mute request until the unmute request, which covers the whole life of the
/// capture process; the lock is held from its acquisition to its release; the
/// watcher runs only while the child's output is read.
pub open spec fn resources_match_phase(v: SessionView) -> bool {
    &&& (v.watcher_active <==> v.phase == Phase::Racing)
    &&& match v.phase {
        Phase::Init => !v.muted && !v.lock_held,
        Phase::LockHeld | Phase::AudioMuted | Phase::ChildSpawned | Phase::Racing
        | Phase::StoppingWatcher | Phase::WaitingChild => v.muted && v.lock_held,
        Phase::Unmuting => !v.muted,
        Phase::ReleasingLock => !v.muted && v.lock_held,
        Phase::Done => !v.muted && !v.lock_held,
    }
}

/// A capture session.
pub struct Session {
    phase: Phase,
    lock_held: bool,
    muted: bool,
    watcher_active: bool,
    reader: ProtocolReader,
}

impl View for Session {
    type V = SessionView;

    closed spec fn view(&self) -> SessionView {
        SessionView {
            phase: self.phase,
            lock_held: self.lock_held,
            muted: self.muted,
            watcher_active: self.watcher_active,
            reader: self.reader@,
        }
    }
}

impl Session {
    pub fn new() -> (r: Session)
        ensures
            r@ == initial_session(),
    {
        Session {
            phase: Phase::Init,
            lock_held: false,
            muted: false,
            watcher_active: false,
            reader: ProtocolReader::new(),
        }
    }

    pub fn phase(&self) -> (r: Phase)
        ensures
            r == self@.phase,
    {
        self.phase
    }

    /// Whether audio is logically muted.
    pub fn is_muted(&self) -> (r: bool)
        ensures
            r == self@.muted,
    {
        self.muted
    }

    /// Whether the instance lock is held.
    pub fn holds_lock(&self) -> (r: bool)
        ensures
            r == self@.lock_held,
    {
        self.lock_held
    }

    /// The action that the session waits on.
    pub fn pending_action(&self) -> (r: SessionAction)
        ensures
            r@ == pending_action(self@),
    {
        match self.phase {
            Phase::Init => SessionAction::AcquireLock,
            Phase::LockHeld => SessionAction::Mute,
            Phase::AudioMuted => SessionAction::Spawn,
            Phase::ChildSpawned => SessionAction::StartWatcher,
            Phase::Racing => SessionAction::ReadLine,
            Phase::StoppingWatcher => SessionAction::StopWatcher,
            Phase::WaitingChild => SessionAction::WaitChild,
            Phase::Unmuting => SessionAction::Unmute,
            Phase::ReleasingLock => SessionAction::ReleaseLock,
            Phase::Done => SessionAction::Exit(self.reader.outcome()),
        }
    }

    fn begin_unmute(&mut self) -> (r: SessionAction)
        ensures
            (final(self)@, r@) == begin_unmute(old(self)@),
    {
        self.phase = Phase::Unmuting;
        self.muted = false;
        SessionAction::Unmute
    }

    fn stop_reading(&mut self) -> (r: SessionAction)
        ensures
            (final(self)@, r@) == stop_reading(old(self)@, old(self)@.reader),
    {
        self.phase = Phase::StoppingWatcher;
        self.watcher_active = false;
        SessionAction::StopWatcher
    }

    /// Takes the event that came of the last action and returns the next action.
    pub fn step(&mut self, event: SessionEvent) -> (r: SessionAction)
        ensures
            (final(self)@, r@) == next(old(self)@, event@),
    {
        match (self.phase, event) {
            (Phase::Init, SessionEvent::LockAcquired) => {
                self.phase = Phase::LockHeld;
                self.lock_held = true;
                self.muted = true;
                SessionAction::Mute
            },
            (Phase::Init, SessionEvent::LockRefused) => self.begin_unmute(),
            (Phase::LockHeld, SessionEvent::Performed) => {
                self.phase = Phase::AudioMuted;
                SessionAction::Spawn
            },
            (Phase::AudioMuted, SessionEvent::Spawned) => {
                self.phase = Phase::ChildSpawned;
                SessionAction::StartWatcher
            },
            (Phase::AudioMuted, SessionEvent::SpawnFailed) => self.begin_unmute(),
            (Phase::ChildSpawned, SessionEvent::Performed) => {
                self.phase = Phase::Racing;
                self.watcher_active = true;
                SessionAction::ReadLine
            },
            (Phase::Racing, SessionEvent::Performed) => SessionAction::ReadLine,
            (Phase::Racing, SessionEvent::Line(l)) => {
                match self.reader.feed(l.as_str()) {
                    LineEffect::Continue => SessionAction::ReadLine,
                    LineEffect::Relay(t) => SessionAction::Relay(t),
                    LineEffect::Finished => self.stop_reading(),
                }
            },
            (Phase::Racing, SessionEvent::StreamClosed) | (
                Phase::Racing,
                SessionEvent::ReadFailed,
            ) => {
                self.reader.end_of_stream();
                self.stop_reading()
            },
            (Phase::StoppingWatcher, SessionEvent::Performed) => {
                self.phase = Phase::WaitingChild;
                SessionAction::WaitChild
            },
            (Phase::WaitingChild, SessionEvent::Performed) => self.begin_unmute(),
            (Phase::Unmuting, SessionEvent::Performed) => {
                if self.lock_held {
                    self.phase = Phase::ReleasingLock;
                    SessionAction::ReleaseLock
                } else {
                    self.phase = Phase::Done;
                    SessionAction::Exit(self.reader.outcome())
                }
            },
            (Phase::ReleasingLock, SessionEvent::Performed) => {
                self.phase = Phase::Done;
                self.lock_held = false;
                SessionAction::Exit(self.reader.outcome())
            },
            _ => self.pending_action(),
        }
    }
}

/// Every step keeps the resources in line with the phase.
pub proof fn lemma_step_keeps_resources(v: SessionView, e: EventView)
    requires
        resources_match_phase(v),
    ensures
        resources_match_phase(next(v, e).0),
{
}

/// Whatever events drive a session from its start, and so on every exit path
/// (a capture that succeeds or fails, a spawn error, lock contention), once it
/// is done audio is unmuted and the lock released; and at no point is audio
/// muted while the phase says otherwise.
pub proof fn lemma_done_session_unmuted(events: Seq<EventView>)
    ensures
        resources_match_phase(run(initial_session(), events)),
        run(initial_session(), events).phase == Phase::Done ==> !run(
            initial_session(),
            events,
        ).muted && !run(initial_session(), events).lock_held,
{
    lemma_run_keeps_resources(initial_session(), events);
}

proof fn lemma_run_keeps_resources(v: SessionView, events: Seq<EventView>)
    requires
        resources_match_phase(v),
    ensures
        resources_match_phase(run(v, events)),
    decreases events.len(),
{
    if events.len() > 0 {
        lemma_step_keeps_resources(v, events[0]);
        lemma_run_keeps_resources(next(v, events[0]).0, events.drop_first());
    }
}

} // verus!
