//! The line protocol that the capture process speaks on its standard output.
//!
//! Each line carries one token or one payload; surrounding white space is
//! ignored and tokens match exactly, case included.
use vstd::prelude::*;

use crate::text::{trim, trimmed};

verus! {

/// How a session ended: with the path of the captured artifact, or not.
pub enum SessionOutcome {
    Success(String),
    Failure,
}

impl SessionOutcome {
    pub open spec fn artifact(&self) -> Option<Seq<char>> {
        match self {
            SessionOutcome::Success(p) => Some(p@),
            SessionOutcome::Failure => None,
        }
    }

    /// The process exit status that reports this outcome: zero for a success,
    /// one for a failure.
    pub fn exit_code(&self) -> (r: u8)
        ensures
            r == 0 <==> self is Success,
            r == 0 || r == 1,
    {
        match self {
            SessionOutcome::Success(_) => 0,
            SessionOutcome::Failure => 1,
        }
    }
}

/// What the supervisor does with one line of the child's output.
pub enum LineEffect {
    /// The line was understood; keep reading.
    Continue,
    /// The line is a diagnostic, handed on with white space trimmed; keep reading.
    Relay(String),
    /// The session's result is settled; stop reading.
    Finished,
}

/// The meaning of a trimmed line, given whether a success is pending.
pub enum LineKind {
    MuteRequest,
    SuccessMark,
    FailMark,
    ArtifactPath,
    Diagnostic,
}

pub open spec fn line_kind(t: Seq<char>, pending: bool) -> LineKind {
    if t == "REQ_MUTE"@ {
        LineKind::MuteRequest
    } else if t == "CAPTURE_SUCCESS"@ {
        LineKind::SuccessMark
    } else if t == "CAPTURE_FAIL"@ {
        LineKind::FailMark
    } else if pending && t.len() > 0 && t[0] == '/' {
        LineKind::ArtifactPath
    } else {
        LineKind::Diagnostic
    }
}

/// The state of the reader, as values.
pub struct ReaderView {
    pub pending: bool,
    pub path: Option<Seq<char>>,
    pub finished: bool,
}

/// The effect of a line, as values.
pub enum EffectView {
    Continue,
    Relay(Seq<char>),
    Finished,
}

impl LineEffect {
    pub open spec fn view(&self) -> EffectView {
        match self {
            LineEffect::Continue => EffectView::Continue,
            LineEffect::Relay(s) => EffectView::Relay(s@),
            LineEffect::Finished => EffectView::Finished,
        }
    }
}

/// The reader after one line, and what the line does.
pub open spec fn after_line(v: ReaderView, line: Seq<char>) -> (ReaderView, EffectView) {
    if v.finished {
        (v, EffectView::Finished)
    } else {
        let t = trimmed(line);
        match line_kind(t, v.pending) {
            LineKind::MuteRequest => (v, EffectView::Continue),
            LineKind::SuccessMark => (ReaderView { pending: true, ..v }, EffectView::Continue),
            LineKind::FailMark => (
                ReaderView { pending: false, finished: true, ..v },
                EffectView::Finished,
            ),
            LineKind::ArtifactPath => (
                ReaderView { path: Some(t), finished: true, ..v },
                EffectView::Finished,
            ),
            LineKind::Diagnostic => (v, EffectView::Relay(t)),
        }
    }
}

/// The reader after each of `lines` in turn.
pub open spec fn after_lines(v: ReaderView, lines: Seq<Seq<char>>) -> ReaderView
    decreases lines.len(),
{
    if lines.len() == 0 {
        v
    } else {
        after_lines(after_line(v, lines[0]).0, lines.drop_first())
    }
}

pub open spec fn initial_reader() -> ReaderView {
    ReaderView { pending: false, path: None, finished: false }
}

/// The interpreter of the child's output stream.
pub struct ProtocolReader {
    success_pending: bool,
    path: Option<String>,
    finished: bool,
}

impl View for ProtocolReader {
    type V = ReaderView;

    closed spec fn view(&self) -> ReaderView {
        ReaderView {
            pending: self.success_pending,
            path: match self.path {
                Some(p) => Some(p@),
                None => None,
            },
            finished: self.finished,
        }
    }
}

impl ProtocolReader {
    pub fn new() -> (r: ProtocolReader)
        ensures
            r@ == initial_reader(),
    {
        ProtocolReader { success_pending: false, path: None, finished: false }
    }

    /// Whether reading has stopped.
    pub fn is_finished(&self) -> (r: bool)
        ensures
            r == self@.finished,
    {
        self.finished
    }

    /// Interprets one line of the child's output.
    pub fn feed(&mut self, line: &str) -> (r: LineEffect)
        ensures
            (final(self)@, r.view()) == after_line(old(self)@, line@),
    {
        if self.finished {
            return LineEffect::Finished;
        }
        let t = trim(line);
        if t == String::from_str("REQ_MUTE") {
            LineEffect::Continue
        } else if t == String::from_str("CAPTURE_SUCCESS") {
            self.success_pending = true;
            LineEffect::Continue
        } else if t == String::from_str("CAPTURE_FAIL") {
            self.success_pending = false;
            self.finished = true;
            LineEffect::Finished
        } else if self.success_pending && starts_with_slash(&t) {
            self.path = Some(t);
            self.finished = true;
            LineEffect::Finished
        } else {
            LineEffect::Relay(t)
        }
    }

    /// The stream closed, or a read failed: reading stops with what was seen.
    pub fn end_of_stream(&mut self)
        ensures
            final(self)@ == (ReaderView { finished: true, ..old(self)@ }),
    {
        self.finished = true;
    }

    /// The session's result: a success only if an artifact path was recorded.
    pub fn outcome(&self) -> (r: SessionOutcome)
        ensures
            r.artifact() == self@.path,
    {
        match &self.path {
            Some(p) => SessionOutcome::Success(p.clone()),
            None => SessionOutcome::Failure,
        }
    }
}

fn starts_with_slash(t: &String) -> (r: bool)
    ensures
        r == (t@.len() > 0 && t@[0] == '/'),
{
    let s = t.as_str();
    s.unicode_len() > 0 && s.get_char(0) == '/'
}

} // verus!
