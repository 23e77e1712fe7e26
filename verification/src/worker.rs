//! Resolving the caller's bounded wait on the worker.
//!
//! A query runs the search on a worker of its own, because the accessibility
//! tree may block without bound; the caller waits for a single one-shot
//! answer, up to [`TIMEOUT_MILLIS`]. What that wait observed is classified
//! here into the query's final outcome. A worker that loses the race is
//! abandoned, never cancelled: whatever it still delivers is discarded.

use vstd::prelude::*;
use crate::error::GetTextError;

verus! {

/// Milliseconds the caller waits for the worker before giving up.
pub const TIMEOUT_MILLIS: u64 = 1000;

/// What the caller's bounded wait on the worker observed.
#[derive(Debug)]
pub enum WorkerWait {
    /// The worker delivered the search's outcome in time.
    Delivered(Result<String, GetTextError>),
    /// The worker's channel closed with nothing ever sent.
    ChannelClosed,
    /// The wait reached its bound before anything arrived.
    TimedOut,
}

/// Turn what the wait observed into the query's final outcome: a delivered
/// outcome passes through unchanged; a closed channel and an elapsed bound
/// are each surfaced as their own failure, never conflated.
pub fn resolve_wait(wait: WorkerWait) -> (r: Result<String, GetTextError>)
    ensures
        wait matches WorkerWait::Delivered(out) ==> r == out,
        wait is ChannelClosed ==> r == Err::<String, GetTextError>(GetTextError::ChannelFailure),
        wait is TimedOut ==> r == Err::<String, GetTextError>(GetTextError::Timeout),
{
    match wait {
        WorkerWait::Delivered(out) => out,
        WorkerWait::ChannelClosed => Err(GetTextError::ChannelFailure),
        WorkerWait::TimedOut => Err(GetTextError::Timeout),
    }
}

} // verus!
