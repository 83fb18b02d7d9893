//! The retry policy: a pure rule deciding, from an error kind and the number
//! of attempts already made, whether an item is tried again and after what
//! wait.

use vstd::prelude::*;

use crate::errors::ErrorKind;
use crate::errors::is_transient;

verus! {

/// What to do after a failed attempt: try again after `wait` seconds, or
/// record the item as failed.
#[derive(Clone, Copy, Debug, PartialEq, Eq, Structural)]
pub enum RetryDecision {
    Retry(u64),
    GiveUp,
}

/// The retry rule's parameters. `max_attempts` bounds the total calls made
/// for one item, first attempt included; the three waits are in seconds.
/// Stateless: decisions depend only on the parameters and the inputs.
#[derive(Clone, Copy, Debug, PartialEq, Eq, Structural)]
pub struct RetryPolicy {
    /// Total attempts allowed per item, the first one included.
    pub max_attempts: usize,
    /// Wait before retrying a rate-limited item whose error carried no
    /// suggested wait.
    pub rate_limit_wait: u64,
    /// Wait before retrying after a transport fault.
    pub transport_wait: u64,
    /// Quiescent delay imposed on every item after the first, before its
    /// extraction call is issued.
    pub pacing_delay: u64,
}

impl RetryPolicy {
    /// The decision for `error` after `attempts_used` calls: retry only
    /// transient errors, and only while attempts remain. A rate-limited
    /// error's suggested wait takes precedence over the policy's own.
    pub open spec fn decision_spec(self, error: ErrorKind, attempts_used: int) -> RetryDecision {
        if attempts_used >= self.max_attempts {
            RetryDecision::GiveUp
        } else {
            match error {
                ErrorKind::RateLimited(suggested) => RetryDecision::Retry(
                    if suggested > 0 {
                        suggested
                    } else {
                        self.rate_limit_wait
                    },
                ),
                ErrorKind::Transport => RetryDecision::Retry(self.transport_wait),
                _ => RetryDecision::GiveUp,
            }
        }
    }

    /// The default rule: four total attempts (three retries after the first),
    /// a 30 second wait on rate limiting, a 5 second wait on transport
    /// faults, and a 6 second pacing delay between items.
    pub fn new() -> (p: RetryPolicy)
        ensures
            p == (RetryPolicy {
                max_attempts: 4usize,
                rate_limit_wait: 30u64,
                transport_wait: 5u64,
                pacing_delay: 6u64,
            }),
    {
        RetryPolicy { max_attempts: 4, rate_limit_wait: 30, transport_wait: 5, pacing_delay: 6 }
    }

    /// Decides whether to try `error`'s item again after `attempts_used`
    /// calls. Pure: returns exactly [`RetryPolicy::decision_spec`].
    pub fn should_retry(&self, error: &ErrorKind, attempts_used: usize) -> (d: RetryDecision)
        ensures
            d == self.decision_spec(*error, attempts_used as int),
    {
        if attempts_used >= self.max_attempts {
            return RetryDecision::GiveUp;
        }
        match error {
            ErrorKind::RateLimited(suggested) => {
                if *suggested > 0 {
                    RetryDecision::Retry(*suggested)
                } else {
                    RetryDecision::Retry(self.rate_limit_wait)
                }
            },
            ErrorKind::Transport => RetryDecision::Retry(self.transport_wait),
            _ => RetryDecision::GiveUp,
        }
    }
}

/// Once `attempts_used` reaches `max_attempts`, the decision is to give up,
/// whatever the error kind.
pub proof fn lemma_exhaustion_gives_up(p: RetryPolicy, error: ErrorKind, attempts_used: int)
    requires
        attempts_used >= p.max_attempts,
    ensures
        p.decision_spec(error, attempts_used) is GiveUp,
{
}

/// A non-transient error is never retried, and a transient one is retried
/// exactly while attempts remain.
pub proof fn lemma_retry_iff_transient_and_attempts_left(
    p: RetryPolicy,
    error: ErrorKind,
    attempts_used: int,
)
    ensures
        p.decision_spec(error, attempts_used) is Retry <==> (is_transient(error) && attempts_used
            < p.max_attempts),
{
}

} // verus!
