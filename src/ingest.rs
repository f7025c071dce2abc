//! The decisions of live ingestion: what to do with each thing the stream
//! connection reports. The connection itself, its timeouts and the waiting
//! belong to the caller, which hands each event to [`IngestSession::step`]
//! and carries out the step it gets back.
use vstd::prelude::*;
use crate::post::{Post, PostView};
use crate::wire::{decode_post, decoded, has_infix, is_create_event, DecodeError, CREATE_EVENT_TAG};

verus! {

/// What the stream connection reported.
#[derive(Debug, PartialEq, Eq)]
pub enum StreamEvent {
    /// A text frame arrived.
    Text(String),
    /// A binary, ping, pong or close frame arrived.
    NonText,
    /// The server closed the connection.
    Closed,
    /// The connection could not be set up, or broke.
    Failed,
    /// No frame arrived within the allowed time.
    TimedOut,
    /// The consumer asked ingestion to stop.
    Cancelled,
}

/// Why a subscription ended without being asked to.
#[derive(Debug, Clone, Copy, PartialEq, Eq, Structural)]
pub enum StreamError {
    Closed,
    Failed,
    TimedOut,
}

/// What the caller does next.
#[derive(Debug, PartialEq, Eq)]
pub enum IngestStep {
    /// Nothing: the frame is of no interest.
    Ignore,
    /// Append this post to the feed.
    Deliver(Post),
    /// This one frame could not be read; the subscription goes on.
    Discard(DecodeError),
    /// The subscription is over because of this error.
    End(StreamError),
    /// The subscription is over: it was cancelled, or had ended before.
    Stop,
}

/// One more, saturating at the largest value.
pub open spec fn bump(n: u64) -> u64 {
    if n < u64::MAX {
        (n + 1) as u64
    } else {
        n
    }
}

fn bump_exec(n: u64) -> (r: u64)
    ensures
        r == bump(n),
{
    if n < u64::MAX {
        n + 1
    } else {
        n
    }
}

/// The counts of one subscription, and whether it is over. A subscription is
/// not restarted: once over, it stays over.
#[derive(Debug, Clone, Copy, PartialEq, Eq, Structural)]
pub struct IngestSession {
    pub finished: bool,
    pub delivered: u64,
    pub ignored: u64,
    pub decode_errors: u64,
}

/// The mathematical value of an [`IngestStep`].
pub enum StepView {
    Ignore,
    Deliver(PostView),
    Discard(DecodeError),
    End(StreamError),
    Stop,
}

pub open spec fn step_view(r: IngestStep) -> StepView {
    match r {
        IngestStep::Ignore => StepView::Ignore,
        IngestStep::Deliver(p) => StepView::Deliver(p@),
        IngestStep::Discard(e) => StepView::Discard(e),
        IngestStep::End(e) => StepView::End(e),
        IngestStep::Stop => StepView::Stop,
    }
}

/// The step owed for `ev` in session `s`: nothing more once the session is
/// over; text frames without the creation tag and non-text frames are
/// ignored; a tagged frame is delivered as the post it decodes to, or
/// discarded with its decode error; a connection error ends the session with
/// that error, and a cancellation stops it.
pub open spec fn step_outcome(s: IngestSession, ev: StreamEvent) -> StepView {
    if s.finished {
        StepView::Stop
    } else {
        match ev {
            StreamEvent::Text(t) => if !has_infix(t@, CREATE_EVENT_TAG@) {
                StepView::Ignore
            } else {
                match decoded(t@) {
                    Ok(p) => StepView::Deliver(p),
                    Err(e) => StepView::Discard(e),
                }
            },
            StreamEvent::NonText => StepView::Ignore,
            StreamEvent::Closed => StepView::End(StreamError::Closed),
            StreamEvent::Failed => StepView::End(StreamError::Failed),
            StreamEvent::TimedOut => StepView::End(StreamError::TimedOut),
            StreamEvent::Cancelled => StepView::Stop,
        }
    }
}

/// The session after `ev`: the count that matches the step moves on by one
/// (saturating), and a step that ends the session marks it finished.
pub open spec fn session_after(s: IngestSession, ev: StreamEvent) -> IngestSession {
    if s.finished {
        s
    } else {
        match step_outcome(s, ev) {
            StepView::Ignore => IngestSession { ignored: bump(s.ignored), ..s },
            StepView::Deliver(_) => IngestSession { delivered: bump(s.delivered), ..s },
            StepView::Discard(_) => IngestSession { decode_errors: bump(s.decode_errors), ..s },
            StepView::End(_) => IngestSession { finished: true, ..s },
            StepView::Stop => IngestSession { finished: true, ..s },
        }
    }
}

impl IngestSession {
    pub fn new() -> (r: IngestSession)
        ensures
            r == (IngestSession { finished: false, delivered: 0, ignored: 0, decode_errors: 0 }),
    {
        IngestSession { finished: false, delivered: 0, ignored: 0, decode_errors: 0 }
    }

    /// Decides what to do with one event, and counts it.
    pub fn step(&mut self, event: StreamEvent) -> (r: IngestStep)
        ensures
            step_view(r) == step_outcome(*old(self), event),
            *final(self) == session_after(*old(self), event),
    {
        if self.finished {
            return IngestStep::Stop;
        }
        match event {
            StreamEvent::Text(t) => {
                if !is_create_event(t.as_str()) {
                    self.ignored = bump_exec(self.ignored);
                    return IngestStep::Ignore;
                }
                let d = decode_post(t.as_str());
                match d {
                    Ok(p) => {
                        self.delivered = bump_exec(self.delivered);
                        IngestStep::Deliver(p)
                    },
                    Err(e) => {
                        self.decode_errors = bump_exec(self.decode_errors);
                        IngestStep::Discard(e)
                    },
                }
            },
            StreamEvent::NonText => {
                self.ignored = bump_exec(self.ignored);
                IngestStep::Ignore
            },
            StreamEvent::Closed => {
                self.finished = true;
                IngestStep::End(StreamError::Closed)
            },
            StreamEvent::Failed => {
                self.finished = true;
                IngestStep::End(StreamError::Failed)
            },
            StreamEvent::TimedOut => {
                self.finished = true;
                IngestStep::End(StreamError::TimedOut)
            },
            StreamEvent::Cancelled => {
                self.finished = true;
                IngestStep::Stop
            },
        }
    }
}

} // verus!
