//! The streaming-fetch state machine: status checking, progress
//! accounting over the declared body size, and the classification of how a
//! transfer ends.  The transfer loop itself runs outside the library and
//! feeds events in.

use vstd::prelude::*;

verus! {

/// Failures of one streaming fetch.
#[derive(Debug, PartialEq, Eq, Clone, Copy, Structural)]
pub enum FetchError {
    /// The connection or name lookup failed before any response arrived.
    Unreachable,
    /// The server answered with a non-success status.
    Http(u16),
    /// The connection ended before the body stream was complete.
    ConnectionClosedEarly,
    /// Reading the body or writing the destination failed.
    Io,
}

/// Success statuses are exactly the 2xx range.
pub open spec fn status_is_success(status: u16) -> bool {
    200 <= status < 300
}

/// Checks a response status; a non-success status fails the fetch with
/// that status.
pub fn check_status(status: u16) -> (r: Result<(), FetchError>)
    ensures
        r is Ok <==> status_is_success(status),
        r is Err ==> r == Err::<(), FetchError>(FetchError::Http(status)),
{
    if status >= 200 && status < 300 {
        Ok(())
    } else {
        Err(FetchError::Http(status))
    }
}

/// A fractional progress report: `numerator / denominator` of the body has
/// arrived.
#[derive(Debug, PartialEq, Eq, Clone, Copy, Structural)]
pub struct ProgressFraction {
    pub numerator: u64,
    pub denominator: u64,
}

/// What the transfer loop observes, one event per turn.
#[derive(Debug, PartialEq, Eq, Clone, Copy, Structural)]
pub enum FetchEvent {
    /// A body chunk of `len` bytes arrived and was written out.
    Chunk { len: u64 },
    /// The body stream signalled completion.
    BodyFinished,
    /// Reading a chunk or writing it to the destination failed.
    ChunkFailed,
    /// The connection ended before the body stream was complete.
    ConnectionEnded,
}

/// What the transfer loop must do next.
#[derive(Debug, PartialEq, Eq, Clone, Copy, Structural)]
pub enum FetchDirective {
    /// Keep reading; report the fraction when one is given.
    Continue(Option<ProgressFraction>),
    /// The fetch is complete.
    Complete,
    /// The fetch failed.
    Abort(FetchError),
}

/// The running state of one body transfer: bytes received so far, against
/// the declared total (zero when the response declared no size).
#[derive(Debug, PartialEq, Eq, Clone, Copy, Structural)]
pub struct FetchStream {
    pub total: u64,
    pub received: u64,
}

/// Addition capped at the largest representable count.
pub open spec fn saturating_add(a: u64, b: u64) -> u64 {
    if a + b > u64::MAX {
        u64::MAX
    } else {
        (a + b) as u64
    }
}

/// The fraction to report: received over total, capped at one; nothing
/// when no total was declared.
pub open spec fn progress_report(s: FetchStream) -> Option<ProgressFraction> {
    if s.total > 0 {
        Some(
            ProgressFraction {
                numerator: if s.received > s.total {
                    s.total
                } else {
                    s.received
                },
                denominator: s.total,
            },
        )
    } else {
        None
    }
}

/// The transition table of one transfer: a chunk advances the count and
/// reports progress; the body's end completes the fetch; a failed chunk
/// aborts with an I/O error; a connection that ends before the body does
/// aborts without silently truncating the destination.
pub open spec fn fetch_step_spec(s: FetchStream, event: FetchEvent) -> (FetchStream, FetchDirective) {
    match event {
        FetchEvent::Chunk { len } => {
            let next = FetchStream { total: s.total, received: saturating_add(s.received, len) };
            (next, FetchDirective::Continue(progress_report(next)))
        },
        FetchEvent::BodyFinished => (s, FetchDirective::Complete),
        FetchEvent::ChunkFailed => (s, FetchDirective::Abort(FetchError::Io)),
        FetchEvent::ConnectionEnded => (s, FetchDirective::Abort(FetchError::ConnectionClosedEarly)),
    }
}

impl FetchStream {
    /// Starts a transfer with the declared body size, if any.
    pub fn new(content_length: Option<u64>) -> (s: FetchStream)
        ensures
            s.total == (match content_length {
                Some(n) => n,
                None => 0u64,
            }),
            s.received == 0,
    {
        FetchStream {
            total: match content_length {
                Some(n) => n,
                None => 0,
            },
            received: 0,
        }
    }

    /// Feeds one event into the transfer.
    pub fn step(&mut self, event: FetchEvent) -> (d: FetchDirective)
        ensures
            *final(self) == fetch_step_spec(*old(self), event).0,
            d == fetch_step_spec(*old(self), event).1,
    {
        match event {
            FetchEvent::Chunk { len } => {
                if len <= u64::MAX - self.received {
                    self.received = self.received + len;
                } else {
                    self.received = u64::MAX;
                }
                let report = if self.total > 0 {
                    Some(
                        ProgressFraction {
                            numerator: if self.received > self.total {
                                self.total
                            } else {
                                self.received
                            },
                            denominator: self.total,
                        },
                    )
                } else {
                    None
                };
                FetchDirective::Continue(report)
            },
            FetchEvent::BodyFinished => FetchDirective::Complete,
            FetchEvent::ChunkFailed => FetchDirective::Abort(FetchError::Io),
            FetchEvent::ConnectionEnded => FetchDirective::Abort(FetchError::ConnectionClosedEarly),
        }
    }
}

/// Every reported fraction lies between zero and one, and a transfer whose
/// response declared no size never reports progress.
pub proof fn lemma_progress_well_formed(s: FetchStream, event: FetchEvent)
    ensures
        (match fetch_step_spec(s, event).1 {
            FetchDirective::Continue(Some(p)) => p.numerator <= p.denominator && p.denominator > 0,
            _ => true,
        }),
        s.total == 0 ==> !(fetch_step_spec(s, event).1 matches FetchDirective::Continue(Some(_))),
{
}

/// A transfer completes exactly on the body stream's own end; a connection
/// that ends first aborts the fetch instead of truncating it.
pub proof fn lemma_completion_follows_body(s: FetchStream, event: FetchEvent)
    ensures
        fetch_step_spec(s, event).1 == FetchDirective::Complete <==> event
            == FetchEvent::BodyFinished,
        event == FetchEvent::ConnectionEnded ==> fetch_step_spec(s, event).1
            == FetchDirective::Abort(FetchError::ConnectionClosedEarly),
{
}

} // verus!
