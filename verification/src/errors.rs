//! The error taxonomy shared by the planner, the retry policy and the
//! orchestrator, and the classification of failed remote answers into it.

use vstd::prelude::*;
use vstd::string::*;

verus! {

/// Every failure the core distinguishes.
///
/// - `InvalidConfig`: a zero chunk size or concurrency limit, rejected before
///   any work starts.
/// - `Transport`: a network or timeout fault reaching the remote service;
///   retryable.
/// - `RateLimited(s)`: explicit backpressure from the remote service,
///   retryable after a wait; `s` is the service's suggested wait in seconds,
///   `0` when the service suggested none.
/// - `Permanent`: authentication, malformed request, not found; never
///   retried.
/// - `RunAborted`: a fault in the execution substrate itself; fatal to the
///   whole run rather than to one item.
#[derive(Clone, Copy, Debug, PartialEq, Eq, Structural)]
pub enum ErrorKind {
    InvalidConfig,
    Transport,
    RateLimited(u64),
    Permanent,
    RunAborted,
}

/// An error kind is transient when a later identical request may succeed,
/// so retrying it is worthwhile.
pub open spec fn is_transient(e: ErrorKind) -> bool {
    e is Transport || e is RateLimited
}

impl ErrorKind {
    /// A short human-readable label for the kind, used in failure events.
    pub fn describe(&self) -> (s: &'static str)
        ensures
            *self is InvalidConfig ==> s@ == "invalid configuration"@,
            *self is Transport ==> s@ == "transport error"@,
            *self is RateLimited ==> s@ == "rate limited"@,
            *self is Permanent ==> s@ == "permanent error"@,
            *self is RunAborted ==> s@ == "run aborted"@,
    {
        match self {
            ErrorKind::InvalidConfig => "invalid configuration",
            ErrorKind::Transport => "transport error",
            ErrorKind::RateLimited(_) => "rate limited",
            ErrorKind::Permanent => "permanent error",
            ErrorKind::RunAborted => "run aborted",
        }
    }
}

/// `needle` occurs in `haystack` starting at position `i`.
pub open spec fn contains_at(haystack: Seq<char>, needle: Seq<char>, i: int) -> bool {
    &&& 0 <= i
    &&& i + needle.len() <= haystack.len()
    &&& haystack.subrange(i, i + needle.len()) == needle
}

/// `needle` occurs somewhere in `haystack`.
pub open spec fn seq_contains(haystack: Seq<char>, needle: Seq<char>) -> bool {
    exists|i: int| contains_at(haystack, needle, i)
}

/// Whether `needle` occurs as a contiguous substring of `haystack`.
pub fn str_contains(haystack: &str, needle: &str) -> (r: bool)
    ensures
        r == seq_contains(haystack@, needle@),
{
    let hl = haystack.unicode_len();
    let nl = needle.unicode_len();
    if nl > hl {
        proof {
            assert forall|k: int| !contains_at(haystack@, needle@, k) by {}
        }
        return false;
    }
    if nl == 0 {
        proof {
            assert(haystack@.subrange(0, 0) =~= needle@);
            assert(contains_at(haystack@, needle@, 0));
        }
        return true;
    }
    let mut i: usize = 0;
    while i <= hl - nl
        invariant
            1 <= nl <= hl,
            hl == haystack@.len(),
            nl == needle@.len(),
            i <= hl - nl + 1,
            forall|k: int| 0 <= k < i ==> !contains_at(haystack@, needle@, k),
        decreases hl - nl - i + 1,
    {
        let mut j: usize = 0;
        let mut matched: bool = true;
        while j < nl && matched
            invariant
                nl <= hl,
                hl == haystack@.len(),
                nl == needle@.len(),
                i + nl <= hl,
                j <= nl,
                matched ==> forall|m: int|
                    0 <= m < j ==> haystack@[i + m] == needle@[m],
                !matched ==> !contains_at(haystack@, needle@, i as int),
            decreases nl - j + if matched {
                1int
            } else {
                0int
            },
        {
            let hc = haystack.get_char(i + j);
            let nc = needle.get_char(j);
            if hc != nc {
                proof {
                    if contains_at(haystack@, needle@, i as int) {
                        assert(haystack@.subrange(
                            i as int,
                            i + needle@.len(),
                        )[j as int] == needle@[j as int]);
                    }
                }
                matched = false;
            } else {
                j = j + 1;
            }
        }
        if matched {
            proof {
                assert(haystack@.subrange(i as int, i + needle@.len()) =~= needle@);
                assert(contains_at(haystack@, needle@, i as int));
            }
            return true;
        }
        i = i + 1;
    }
    proof {
        assert forall|k: int| !contains_at(haystack@, needle@, k) by {}
    }
    false
}

/// The token with which the remote service signals explicit backpressure
/// inside an error body.
pub open spec fn backpressure_marker() -> Seq<char> {
    "RESOURCE_EXHAUSTED"@
}

/// The error kind a failed remote answer maps onto: explicit backpressure —
/// the dedicated status code, or the backpressure token in the body — is
/// rate limiting; any other client error is permanent; everything else is a
/// transport fault.
pub open spec fn classified_remote_error(status: int, body: Seq<char>) -> ErrorKind {
    if status == 429 || seq_contains(body, backpressure_marker()) {
        ErrorKind::RateLimited(0)
    } else if 400 <= status < 500 {
        ErrorKind::Permanent
    } else {
        ErrorKind::Transport
    }
}

/// Maps a failed remote answer — its HTTP status and error body — into the
/// taxonomy, exactly as [`classified_remote_error`] says.
pub fn classify_remote_failure(status: u16, body: &str) -> (e: ErrorKind)
    ensures
        e == classified_remote_error(status as int, body@),
{
    if status == 429 || str_contains(body, "RESOURCE_EXHAUSTED") {
        ErrorKind::RateLimited(0)
    } else if 400 <= status && status < 500 {
        ErrorKind::Permanent
    } else {
        ErrorKind::Transport
    }
}

} // verus!
