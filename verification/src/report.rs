//! Per-record outcomes and the aggregate report of one import run.

use vstd::prelude::*;

verus! {

/// Errors surfaced by the remote graph service for a single operation.
///
/// A `ConnectionError` is transport-level (unreachable host, timeout) and
/// retryable; a `RemoteRejection` means the service accepted the connection
/// but rejected the operation, which no retry can repair.
#[derive(Clone, Copy, PartialEq, Eq, Structural, Debug)]
pub enum GraphError {
    ConnectionError,
    RemoteRejection,
}

/// Classification of a per-record import failure.
#[derive(Clone, Copy, PartialEq, Eq, Structural, Debug)]
pub enum ErrorKind {
    /// A required field of an input record was empty.
    InvalidRecord,
    /// Transport-level failure that survived the configured retries.
    ConnectionError,
    /// The service rejected the operation; never retried.
    RemoteRejection,
    /// An edge endpoint key matched no existing vertex; never retried.
    UnresolvedEndpoint,
}

/// The failure kind recorded for a remote error.
pub open spec fn kind_of(e: GraphError) -> ErrorKind {
    match e {
        GraphError::ConnectionError => ErrorKind::ConnectionError,
        GraphError::RemoteRejection => ErrorKind::RemoteRejection,
    }
}

/// Opaque reference to a vertex held by the remote service.
#[derive(Clone, Copy, PartialEq, Eq, Structural, Debug)]
pub struct VertexHandle {
    pub id: u64,
}

/// Outcome of one creation attempt: the id the service assigned, or the
/// failure kind together with the index of the input record it belongs to.
#[derive(Clone, Copy, PartialEq, Eq, Structural, Debug)]
pub enum ElementResult {
    Success { element_id: u64 },
    Failure { kind: ErrorKind, record_index: usize },
}

/// A result is attributed to input position `i`: a failure carries exactly
/// that record index (a success needs no index of its own).
pub open spec fn indexed(r: ElementResult, i: int) -> bool {
    match r {
        ElementResult::Success { .. } => true,
        ElementResult::Failure { record_index, .. } => record_index == i,
    }
}

/// How many of the results are successes.
pub open spec fn success_count(rs: Seq<ElementResult>) -> nat
    decreases rs.len(),
{
    if rs.len() == 0 {
        0
    } else {
        success_count(rs.drop_last()) + if rs.last() is Success {
            1nat
        } else {
            0nat
        }
    }
}

/// The failures among the results, in input order, each as the recorded
/// (record index, failure kind) pair.
pub open spec fn failure_list(rs: Seq<ElementResult>) -> Seq<(usize, ErrorKind)>
    decreases rs.len(),
{
    if rs.len() == 0 {
        Seq::empty()
    } else {
        failure_list(rs.drop_last()) + match rs.last() {
            ElementResult::Success { .. } => Seq::<(usize, ErrorKind)>::empty(),
            ElementResult::Failure { kind, record_index } => seq![(record_index, kind)],
        }
    }
}

/// The positions of the failed results, in input order.
pub open spec fn failure_positions(rs: Seq<ElementResult>) -> Seq<int>
    decreases rs.len(),
{
    if rs.len() == 0 {
        Seq::empty()
    } else {
        failure_positions(rs.drop_last()) + if rs.last() is Failure {
            seq![rs.len() - 1]
        } else {
            Seq::<int>::empty()
        }
    }
}

/// Under per-index attribution, each entry of the failure list names
/// exactly the position of its failed result, so the failed rows can be
/// re-submitted from the report alone.
pub proof fn lemma_failures_attributable(rs: Seq<ElementResult>)
    requires
        forall|i: int| 0 <= i < rs.len() ==> indexed(rs[i], i),
    ensures
        failure_list(rs).len() == failure_positions(rs).len(),
        forall|j: int|
            0 <= j < failure_list(rs).len() ==> {
                let p = #[trigger] failure_positions(rs)[j];
                &&& 0 <= p < rs.len()
                &&& rs[p] == (ElementResult::Failure {
                    kind: failure_list(rs)[j].1,
                    record_index: failure_list(rs)[j].0,
                })
                &&& failure_list(rs)[j].0 == p
            },
    decreases rs.len(),
{
    if rs.len() > 0 {
        let prev = rs.drop_last();
        assert(forall|i: int| 0 <= i < prev.len() ==> indexed(#[trigger] prev[i], i));
        lemma_failures_attributable(prev);
        let fl = failure_list(rs);
        let fp = failure_positions(rs);
        let fl0 = failure_list(prev);
        let fp0 = failure_positions(prev);
        assert forall|j: int| 0 <= j < fl0.len() implies fl[j] == fl0[j] && fp[j] == fp0[j] by {
            assert(fl[j] == fl0[j]);
            assert(fp[j] == fp0[j]);
        }
        if rs.last() is Failure {
            assert(indexed(rs[rs.len() - 1], rs.len() - 1));
            assert(fp[fp.len() - 1] == rs.len() - 1);
        }
    }
}

/// Every result is either a success or a recorded failure, so the two
/// tallies partition the results.
pub proof fn lemma_counts_partition(rs: Seq<ElementResult>)
    ensures
        success_count(rs) + failure_list(rs).len() == rs.len(),
    decreases rs.len(),
{
    if rs.len() > 0 {
        lemma_counts_partition(rs.drop_last());
    }
}

/// Aggregate outcome of one import run: counts plus the ordered failures,
/// with enough context (index, kind) to re-run just the failed subset.
#[derive(Clone, Debug)]
pub struct ImportReport {
    pub attempted: usize,
    pub succeeded: usize,
    pub failed: usize,
    pub failures: Vec<(usize, ErrorKind)>,
}

impl ImportReport {
    /// The counts are consistent: every attempt either succeeded or stands
    /// in the failure list.
    pub open spec fn wf(self) -> bool {
        &&& self.attempted == self.succeeded + self.failed
        &&& self.failed == self.failures@.len()
    }

    /// The report is the faithful summary of the given result sequence.
    pub open spec fn summarizes(self, rs: Seq<ElementResult>) -> bool {
        &&& self.attempted == rs.len()
        &&& self.succeeded == success_count(rs)
        &&& self.failures@ == failure_list(rs)
        &&& self.failed == failure_list(rs).len()
    }
}

/// Builds the report for a completed result sequence: attempts equal the
/// results, successes are counted, and the failures are kept in input order.
pub fn aggregate(results: &Vec<ElementResult>) -> (report: ImportReport)
    ensures
        report.summarizes(results@),
        report.wf(),
{
    let n = results.len();
    let mut succeeded: usize = 0;
    let mut failures: Vec<(usize, ErrorKind)> = Vec::new();
    for i in 0..n
        invariant
            n == results@.len(),
            succeeded == success_count(results@.take(i as int)),
            failures@ == failure_list(results@.take(i as int)),
            succeeded + failures@.len() == i,
    {
        proof {
            assert(results@.take(i as int + 1).drop_last() =~= results@.take(i as int));
            assert(results@.take(i as int + 1).last() == results@[i as int]);
        }
        match results[i] {
            ElementResult::Success { element_id: _ } => {
                succeeded = succeeded + 1;
            },
            ElementResult::Failure { kind, record_index } => {
                failures.push((record_index, kind));
            },
        }
    }
    proof {
        assert(results@.take(n as int) =~= results@);
        lemma_counts_partition(results@);
    }
    let failed = failures.len();
    ImportReport { attempted: n, succeeded, failed, failures }
}

} // verus!
