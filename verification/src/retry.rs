//! Bounded retry with exponential backoff for transient connection
//! failures, modeled as an explicit small state machine so the retry
//! contract stands on its own: `Attempting -> Retrying(n) -> Failed |
//! Succeeded`. A `RemoteRejection` is a data problem and is never retried;
//! a `ConnectionError` is retried up to the configured bound and then
//! recorded as a failure, never dropped.

use vstd::prelude::*;
use crate::report::GraphError;

verus! {

/// Retry policy of one run: how many retries follow a first failed
/// attempt, and the delay before the first retry (doubled each time).
#[derive(Clone, Copy, PartialEq, Eq, Structural, Debug)]
pub struct RetryPolicy {
    pub max_retries: u32,
    pub base_delay_ms: u64,
}

/// Retry progress of one remote operation.
#[derive(Clone, Copy, PartialEq, Eq, Structural, Debug)]
pub enum RetryState {
    /// The first attempt has not completed yet.
    Attempting,
    /// `attempts` retries have been dispatched after failed attempts.
    Retrying { attempts: u32 },
    /// Some attempt completed successfully.
    Succeeded,
    /// The operation is abandoned with this error.
    Failed { error: GraphError },
}

/// A state from which another attempt is still in flight.
pub open spec fn live(s: RetryState) -> bool {
    s is Attempting || s is Retrying
}

/// How many retries the state has already spent.
pub open spec fn attempts_of(s: RetryState) -> u32 {
    match s {
        RetryState::Retrying { attempts } => attempts,
        _ => 0,
    }
}

/// The transition taken when the in-flight attempt completes with
/// `outcome` (`None` is success, `Some` the error it failed with).
pub open spec fn spec_retry_step(s: RetryState, outcome: Option<GraphError>, policy: RetryPolicy) -> RetryState {
    match outcome {
        None => RetryState::Succeeded,
        Some(GraphError::RemoteRejection) => RetryState::Failed { error: GraphError::RemoteRejection },
        Some(GraphError::ConnectionError) => {
            if attempts_of(s) < policy.max_retries {
                RetryState::Retrying { attempts: (attempts_of(s) + 1) as u32 }
            } else {
                RetryState::Failed { error: GraphError::ConnectionError }
            }
        },
    }
}

/// Advances the retry machine by one completed attempt.
pub fn retry_step(s: RetryState, outcome: Option<GraphError>, policy: &RetryPolicy) -> (next: RetryState)
    requires
        live(s),
    ensures
        next == spec_retry_step(s, outcome, *policy),
{
    match outcome {
        None => RetryState::Succeeded,
        Some(GraphError::RemoteRejection) => RetryState::Failed { error: GraphError::RemoteRejection },
        Some(GraphError::ConnectionError) => {
            let attempts = match s {
                RetryState::Retrying { attempts } => attempts,
                _ => 0,
            };
            if attempts < policy.max_retries {
                RetryState::Retrying { attempts: attempts + 1 }
            } else {
                RetryState::Failed { error: GraphError::ConnectionError }
            }
        },
    }
}

/// The delay before retry number `attempt` (1-based): the base delay,
/// doubled for each further retry, saturating at the largest delay.
pub open spec fn spec_backoff(base: u64, attempt: u32) -> u64
    decreases attempt,
{
    if attempt <= 1 {
        base
    } else {
        saturating_double(spec_backoff(base, (attempt - 1) as u32))
    }
}

/// Twice the delay, capped at the largest representable delay.
pub open spec fn saturating_double(d: u64) -> u64 {
    if d <= u64::MAX / 2 {
        (2 * d) as u64
    } else {
        u64::MAX
    }
}

/// Computes the exponential backoff delay before retry number `attempt`.
pub fn backoff_delay(base: u64, attempt: u32) -> (d: u64)
    ensures
        d == spec_backoff(base, attempt),
    decreases attempt,
{
    if attempt <= 1 {
        base
    } else {
        let prev = backoff_delay(base, attempt - 1);
        if prev <= u64::MAX / 2 {
            2 * prev
        } else {
            u64::MAX
        }
    }
}

/// A `RemoteRejection` is never retried: from any live state, exactly one
/// attempt is made and the machine moves straight to `Failed`.
pub proof fn lemma_rejection_never_retried(s: RetryState, policy: RetryPolicy)
    requires
        live(s),
    ensures
        spec_retry_step(s, Some(GraphError::RemoteRejection), policy)
            == (RetryState::Failed { error: GraphError::RemoteRejection }),
        !(spec_retry_step(s, Some(GraphError::RemoteRejection), policy) is Retrying),
{
}

/// Running the machine over a sequence of completed-attempt outcomes,
/// stopping once it settles.
pub open spec fn retry_run(s: RetryState, outcomes: Seq<Option<GraphError>>, policy: RetryPolicy) -> RetryState
    decreases outcomes.len(),
{
    if outcomes.len() == 0 || !live(s) {
        s
    } else {
        retry_run(spec_retry_step(s, outcomes.first(), policy), outcomes.drop_first(), policy)
    }
}

proof fn lemma_connection_exhaustion_from(s: RetryState, outcomes: Seq<Option<GraphError>>, policy: RetryPolicy)
    requires
        live(s),
        attempts_of(s) <= policy.max_retries,
        attempts_of(s) + outcomes.len() == policy.max_retries + 1,
        forall|i: int| 0 <= i < outcomes.len() ==> outcomes[i] == Some(GraphError::ConnectionError),
    ensures
        retry_run(s, outcomes, policy) == (RetryState::Failed { error: GraphError::ConnectionError }),
    decreases outcomes.len(),
{
    let next = spec_retry_step(s, outcomes.first(), policy);
    if attempts_of(s) < policy.max_retries {
        lemma_connection_exhaustion_from(next, outcomes.drop_first(), policy);
    } else {
        assert(outcomes.len() == 1);
        assert(retry_run(next, outcomes.drop_first(), policy) == next);
    }
}

/// A connection failure is retried up to the configured bound: when every
/// one of the first attempt and the `max_retries` retries completes with
/// `ConnectionError`, the machine settles on `Failed { ConnectionError }`
/// rather than dropping the operation.
pub proof fn lemma_connection_retry_bound(outcomes: Seq<Option<GraphError>>, policy: RetryPolicy)
    requires
        outcomes.len() == policy.max_retries + 1,
        forall|i: int| 0 <= i < outcomes.len() ==> outcomes[i] == Some(GraphError::ConnectionError),
    ensures
        retry_run(RetryState::Attempting, outcomes, policy)
            == (RetryState::Failed { error: GraphError::ConnectionError }),
{
    lemma_connection_exhaustion_from(RetryState::Attempting, outcomes, policy);
}

} // verus!
