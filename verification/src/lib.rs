//! Splits a document's logical page range into fixed-size chunks, runs each
//! chunk through an externally supplied extraction port under a concurrency
//! cap with per-item retries, and reassembles the per-chunk results into one
//! ordered document, tolerating partial failures and trailing-empty
//! truncation.
//!
//! The pure core lives here: the page-range planner, the retry policy, the
//! orchestrator that drives items to a terminal outcome, and the reduction
//! that assembles the final report. All I/O (the remote extraction service,
//! progress rendering, file reading) is reached only through the port traits
//! in [`ports`], which callers implement outside this crate.

use vstd::prelude::*;

pub mod chunker;
pub mod errors;
pub mod orchestrator;
pub mod planner;
pub mod ports;
pub mod report;
pub mod retry;

verus! {

/// Run-wide configuration handed in by the caller: the credential for the
/// remote extraction service and the byte-chunk size used when splitting
/// raw document data.
pub struct Config {
    pub api_key: String,
    pub chunk_size: usize,
}

} // verus!
