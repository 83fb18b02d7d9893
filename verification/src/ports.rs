//! The capability interfaces the orchestrator depends on. All of them are
//! implemented outside this crate: the extraction port by the remote-service
//! client, the progress sink by UI code, the wait port by whatever clock or
//! scheduler the caller runs under, and the cancel signal by the caller's
//! shutdown handling. The orchestrator promises nothing about their
//! behaviour and is verified for every implementation.

use vstd::prelude::*;

use crate::errors::ErrorKind;

verus! {

/// A progress event observed by a [`ProgressSink`]. Fire-and-forget: the
/// orchestrator makes no ordering promise across items.
#[derive(Clone, Debug, PartialEq)]
pub enum EventKind {
    /// The item's first extraction call is about to be issued.
    Started,
    /// The item advanced to the given percentage.
    ProgressUpdate(u32),
    /// The item hit a transient error and will be retried after the given
    /// wait in seconds.
    RateLimited(u64),
    /// The item succeeded with the given extracted character count.
    Completed(usize),
    /// The item failed for good; the payload is a short description.
    Failed(String),
}

/// The remote text-extraction service, at its interface boundary: asked for
/// the text of one contiguous unit range, it answers with the text or with
/// an [`ErrorKind`]. Upload, auth and transport are the implementor's own
/// concern.
pub trait ExtractionPort {
    fn extract(&mut self, start_unit: usize, end_unit: usize) -> Result<String, ErrorKind>;
}

/// An observer of orchestrator events. Failures inside the sink must never
/// reach the orchestrator; implementations swallow their own errors.
pub trait ProgressSink {
    fn on_event(&mut self, item_index: usize, event: EventKind);
}

/// A cancellation signal polled by the orchestrator before it issues new
/// work. Once it reads true, the orchestrator stops dispatching and returns
/// the partial report.
pub trait CancelSignal {
    fn is_cancelled(&self) -> bool;
}

/// The clock the orchestrator suspends on: pacing delays between items and
/// retry backoff both go through `wait`. Implementations sleep, yield to a
/// scheduler, or return at once under test.
pub trait WaitPort {
    fn wait(&mut self, seconds: u64);
}

} // verus!
