//! The orchestrator's policy layer: it owns what the importers do not —
//! whether a failed operation is retried (bounded, with exponential
//! backoff, and only for transport errors), whether a run aborts early
//! once a failure threshold is crossed (fail-fast) or runs to completion
//! (fail-soft, the default), and how a finished run is summarized and
//! turned into an exit status.
//!
//! The unverified driver performs each remote round trip, hands the raw
//! outcome to a mediation function here, and either repeats the operation
//! after the returned delay or feeds the settled outcome to the importer.

use vstd::prelude::*;
use crate::edge_import::LookupOutcome;
use crate::report::{ElementResult, GraphError, ImportReport, aggregate};
use crate::retry::{
    RetryPolicy, RetryState, attempts_of, backoff_delay, live, retry_step, spec_backoff,
    spec_retry_step,
};
use crate::vertex_import::CreateOutcome;

verus! {

/// Policy of one run: the retry bound and backoff base, and an optional
/// fail-fast threshold (`None` is fail-soft: run to completion).
#[derive(Clone, Copy, PartialEq, Eq, Structural, Debug)]
pub struct RunPolicy {
    pub retry: RetryPolicy,
    pub fail_fast_threshold: Option<usize>,
}

/// How one full run ended: with a report covering every record, or
/// aborted before any record by a session-establishment failure.
#[derive(Clone, Debug)]
pub enum RunOutcome {
    Completed { report: ImportReport },
    Aborted { error: GraphError },
}

/// A run counts as a full success exactly when it completed and no
/// record failed.
pub open spec fn run_succeeded(outcome: RunOutcome) -> bool {
    match outcome {
        RunOutcome::Completed { report } => report.failed == 0,
        RunOutcome::Aborted { .. } => false,
    }
}

/// The process exit status of a run: zero on full success, one when the
/// report holds any failure or the session could not be established.
pub fn exit_code(outcome: &RunOutcome) -> (c: i32)
    ensures
        c == if run_succeeded(*outcome) {
            0int
        } else {
            1int
        },
{
    match outcome {
        RunOutcome::Completed { report } => {
            if report.failed == 0 {
                0
            } else {
                1
            }
        },
        RunOutcome::Aborted { error: _ } => 1,
    }
}

/// Builds the completed-run outcome for a finished result sequence.
pub fn complete_run(results: &Vec<ElementResult>) -> (outcome: RunOutcome)
    ensures
        match outcome {
            RunOutcome::Completed { report } => {
                &&& report.summarizes(results@)
                &&& report.wf()
            },
            RunOutcome::Aborted { .. } => false,
        },
{
    RunOutcome::Completed { report: aggregate(results) }
}

/// Whether the run should abort now: only under a fail-fast policy, and
/// only once the recorded failures have reached its threshold.
pub fn should_abort(failed_so_far: usize, policy: &RunPolicy) -> (r: bool)
    ensures
        r == match policy.fail_fast_threshold {
            Some(t) => failed_so_far >= t,
            None => false,
        },
{
    match policy.fail_fast_threshold {
        Some(t) => failed_so_far >= t,
        None => false,
    }
}

/// The retry-relevant part of a creation outcome: `None` on success.
pub open spec fn err_of_create(outcome: CreateOutcome) -> Option<GraphError> {
    match outcome {
        CreateOutcome::Created { .. } => None,
        CreateOutcome::Failed { error } => Some(error),
    }
}

/// The retry-relevant part of a lookup outcome: a missing vertex is an
/// answer, not an error, so only a transport or service error counts.
pub open spec fn err_of_lookup(outcome: LookupOutcome) -> Option<GraphError> {
    match outcome {
        LookupOutcome::Found { .. } => None,
        LookupOutcome::Missing => None,
        LookupOutcome::Failed { error } => Some(error),
    }
}

/// What the driver should do with a raw creation outcome.
#[derive(Clone, Copy, PartialEq, Eq, Structural, Debug)]
pub enum CreateMediation {
    /// Repeat the operation after this delay; `state` carries the spent
    /// retries forward.
    RetryAfter { state: RetryState, delay_ms: u64 },
    /// The operation has settled; feed this outcome to the importer.
    Settle { outcome: CreateOutcome },
}

/// What the driver should do with a raw lookup outcome.
#[derive(Clone, Copy, PartialEq, Eq, Structural, Debug)]
pub enum LookupMediation {
    /// Repeat the lookup after this delay; `state` carries the spent
    /// retries forward.
    RetryAfter { state: RetryState, delay_ms: u64 },
    /// The lookup has settled; feed this outcome to the importer.
    Settle { outcome: LookupOutcome },
}

/// Decides, by the retry machine, what a raw creation outcome leads to: a
/// success or a rejection settles at once, a connection error within the
/// bound is retried after the backoff delay, and one past the bound
/// settles as a connection failure.
pub fn mediate_create(raw: CreateOutcome, state: RetryState, policy: &RetryPolicy) -> (m:
    CreateMediation)
    requires
        live(state),
    ensures
        ({
            let next = spec_retry_step(state, err_of_create(raw), *policy);
            match m {
                CreateMediation::RetryAfter { state: ns, delay_ms } => {
                    &&& next is Retrying
                    &&& ns == next
                    &&& delay_ms == spec_backoff(policy.base_delay_ms, attempts_of(next))
                },
                CreateMediation::Settle { outcome } => {
                    &&& !(next is Retrying)
                    &&& match next {
                        RetryState::Succeeded => outcome == raw,
                        RetryState::Failed { error } => outcome == (CreateOutcome::Failed {
                            error,
                        }),
                        _ => false,
                    }
                },
            }
        }),
{
    let err = match raw {
        CreateOutcome::Created { element_id: _ } => None,
        CreateOutcome::Failed { error } => Some(error),
    };
    let next = retry_step(state, err, policy);
    match next {
        RetryState::Retrying { attempts } => CreateMediation::RetryAfter {
            state: next,
            delay_ms: backoff_delay(policy.base_delay_ms, attempts),
        },
        RetryState::Failed { error } => CreateMediation::Settle {
            outcome: CreateOutcome::Failed { error },
        },
        _ => CreateMediation::Settle { outcome: raw },
    }
}

/// Decides, by the retry machine, what a raw lookup outcome leads to: an
/// answer (found or missing) or a rejection settles at once, a connection
/// error within the bound is retried after the backoff delay, and one
/// past the bound settles as a connection failure.
pub fn mediate_lookup(raw: LookupOutcome, state: RetryState, policy: &RetryPolicy) -> (m:
    LookupMediation)
    requires
        live(state),
    ensures
        ({
            let next = spec_retry_step(state, err_of_lookup(raw), *policy);
            match m {
                LookupMediation::RetryAfter { state: ns, delay_ms } => {
                    &&& next is Retrying
                    &&& ns == next
                    &&& delay_ms == spec_backoff(policy.base_delay_ms, attempts_of(next))
                },
                LookupMediation::Settle { outcome } => {
                    &&& !(next is Retrying)
                    &&& match next {
                        RetryState::Succeeded => outcome == raw,
                        RetryState::Failed { error } => outcome == (LookupOutcome::Failed {
                            error,
                        }),
                        _ => false,
                    }
                },
            }
        }),
{
    let err = match raw {
        LookupOutcome::Found { handle: _ } => None,
        LookupOutcome::Missing => None,
        LookupOutcome::Failed { error } => Some(error),
    };
    let next = retry_step(state, err, policy);
    match next {
        RetryState::Retrying { attempts } => LookupMediation::RetryAfter {
            state: next,
            delay_ms: backoff_delay(policy.base_delay_ms, attempts),
        },
        RetryState::Failed { error } => LookupMediation::Settle {
            outcome: LookupOutcome::Failed { error },
        },
        _ => LookupMediation::Settle { outcome: raw },
    }
}

/// Result collection for a concurrent dispatch: one pre-sized slot per
/// input record, written by index as operations complete in any order, so
/// the final sequence is indexed by input position, not completion order.
pub struct ResultSlots {
    pub slots: Vec<Option<ElementResult>>,
}

impl ResultSlots {
    /// Every slot has been written.
    pub open spec fn filled(self) -> bool {
        forall|i: int| 0 <= i < self.slots@.len() ==> self.slots@[i] is Some
    }

    /// Pre-sizes one empty slot per input record.
    pub fn new(n: usize) -> (r: ResultSlots)
        ensures
            r.slots@.len() == n,
            forall|i: int| 0 <= i < n ==> r.slots@[i] is None,
    {
        let mut slots: Vec<Option<ElementResult>> = Vec::new();
        for k in 0..n
            invariant
                slots@.len() == k,
                forall|i: int| 0 <= i < k ==> slots@[i] is None,
        {
            slots.push(None);
        }
        ResultSlots { slots }
    }

    /// Records the result of the record at `index`, exactly once, leaving
    /// every other slot untouched.
    pub fn set(&mut self, index: usize, result: ElementResult)
        requires
            index < old(self).slots@.len(),
            old(self).slots@[index as int] is None,
        ensures
            final(self).slots@ == old(self).slots@.update(index as int, Some(result)),
    {
        self.slots.set(index, Some(result));
    }

    /// Hands the completed results out in input order.
    pub fn collect(&self) -> (results: Vec<ElementResult>)
        requires
            self.filled(),
        ensures
            results@.len() == self.slots@.len(),
            forall|i: int|
                0 <= i < results@.len() ==> Some(#[trigger] results@[i]) == self.slots@[i],
    {
        let n = self.slots.len();
        let mut results: Vec<ElementResult> = Vec::new();
        for k in 0..n
            invariant
                n == self.slots@.len(),
                self.filled(),
                results@.len() == k,
                forall|i: int| 0 <= i < k ==> Some(#[trigger] results@[i]) == self.slots@[i],
        {
            match self.slots[k] {
                Some(r) => results.push(r),
                None => {
                    proof {
                        assert(false);
                    }
                },
            }
        }
        results
    }
}

} // verus!
