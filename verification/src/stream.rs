//! The half-stream adapters' retry decision.
//!
//! A reader and a writer share the socket handle without owning it
//! exclusively; each drives a readiness poll and performs non-blocking
//! transfers, retrying while the reactor still reports readiness but the
//! transfer itself would block.  The host glue runs those loops; the
//! decision taken on each iteration is verified here.  Dropping either
//! half has no effect on the peer, and the writer never performs a
//! half-close: that is reachable only through the explicit `shutdown`
//! operation on the parent socket.

use vstd::prelude::*;

use crate::error::IoErrorKind;

verus! {

/// What one iteration of a half-stream poll loop does with the outcome of
/// a non-blocking transfer.
#[derive(Clone, Copy, PartialEq, Eq, Structural, Debug)]
pub enum StreamStep {
    /// Hand the outcome -- the byte count or the error -- to the caller.
    Deliver,
    /// The transfer would have blocked although the reactor reported
    /// readiness; poll readiness again and retry.
    Retry,
}

/// Decide one iteration of a half-stream poll loop: a would-block outcome
/// is transient and retried, every other outcome is delivered as is.
pub fn stream_poll_step(outcome: &Result<usize, IoErrorKind>) -> (r: StreamStep)
    ensures
        r == (match outcome {
            Result::Err(IoErrorKind::WouldBlock) => StreamStep::Retry,
            _ => StreamStep::Deliver,
        }),
{
    match outcome {
        Result::Err(IoErrorKind::WouldBlock) => StreamStep::Retry,
        _ => StreamStep::Deliver,
    }
}

} // verus!
