//! The edge importer: for each edge record, resolve the source key, then
//! the destination key, then create the edge between the two resolved
//! vertices. An endpoint with no match is recorded as an
//! `UnresolvedEndpoint` failure and the edge is not attempted; a failure
//! never stops the records after it. A self-loop (`from == to`) runs
//! through the same two lookups and, once both resolve, its creation is
//! attempted like any other edge.
//!
//! As with the vertex importer, the remote round trips are the caller's:
//! the machine names the next operation, the caller reports the service's
//! answer, and the machine records per-record results in input order.

use vstd::prelude::*;
use crate::models::csv::Edge;
use crate::report::{
    ElementResult, ErrorKind, GraphError, VertexHandle, failure_positions, indexed, kind_of,
};
use crate::vertex_import::CreateOutcome;

verus! {

/// How the remote service answered one vertex lookup.
#[derive(Clone, Copy, PartialEq, Eq, Structural, Debug)]
pub enum LookupOutcome {
    /// A vertex matched the key.
    Found { handle: VertexHandle },
    /// No vertex matched the key; this is an answer, not an error.
    Missing,
    /// The lookup failed, after any retries the orchestrator chose to
    /// spend, with this error.
    Failed { error: GraphError },
}

/// Where the current edge record stands in its resolve-resolve-create
/// round trips.
#[derive(Clone, Copy, PartialEq, Eq, Structural, Debug)]
pub enum EdgePhase {
    /// The source key is being resolved.
    ResolveFrom,
    /// The source resolved to this vertex; the destination key is being
    /// resolved.
    ResolveTo { from: VertexHandle },
    /// Both endpoints resolved; the edge between them is being created.
    Create { from: VertexHandle, to: VertexHandle },
}

/// The operation the caller should perform next.
#[derive(PartialEq, Eq, Debug)]
pub enum EdgeStep {
    /// Look up the vertex matching `key`.
    Lookup { key: String },
    /// Create an edge labeled `relationship` between the two resolved
    /// vertices.
    CreateEdge { relationship: String, from: VertexHandle, to: VertexHandle },
    /// Every record has settled.
    Done,
}

/// State of one edge-import pass: the input records, the results recorded
/// so far (one per settled record, in input order), and the phase of the
/// record currently in flight.
pub struct EdgeImporter {
    pub records: Vec<Edge>,
    pub results: Vec<ElementResult>,
    pub phase: EdgePhase,
}

impl EdgeImporter {
    /// At most one result per record, each recorded failure carries the
    /// position of the record it belongs to, and a finished pass does not
    /// sit mid-record.
    pub open spec fn inv(self) -> bool {
        &&& self.results@.len() <= self.records@.len()
        &&& forall|i: int| 0 <= i < self.results@.len() ==> indexed(self.results@[i], i)
        &&& (self.results@.len() == self.records@.len() ==> self.phase == EdgePhase::ResolveFrom)
    }

    /// Every record's outcome has been recorded.
    pub open spec fn done(self) -> bool {
        self.results@.len() == self.records@.len()
    }

    /// The position of the record currently in flight.
    pub open spec fn current(self) -> int {
        self.results@.len() as int
    }

    /// Starts a pass over the given records, with nothing settled and the
    /// first record's source key up for resolution.
    pub fn new(records: Vec<Edge>) -> (imp: EdgeImporter)
        ensures
            imp.inv(),
            imp.records == records,
            imp.results@ =~= Seq::<ElementResult>::empty(),
            imp.phase == EdgePhase::ResolveFrom,
    {
        EdgeImporter { records, results: Vec::new(), phase: EdgePhase::ResolveFrom }
    }

    /// The operation to perform next: the lookup of the current record's
    /// source or destination key, the creation of its edge, or nothing.
    pub fn current_step(&self) -> (step: EdgeStep)
        requires
            self.inv(),
        ensures
            self.done() ==> step == EdgeStep::Done,
            !self.done() ==> match self.phase {
                EdgePhase::ResolveFrom => step == (EdgeStep::Lookup {
                    key: self.records@[self.current()].from,
                }),
                EdgePhase::ResolveTo { from } => step == (EdgeStep::Lookup {
                    key: self.records@[self.current()].to,
                }),
                EdgePhase::Create { from, to } => step == (EdgeStep::CreateEdge {
                    relationship: self.records@[self.current()].relationship,
                    from,
                    to,
                }),
            },
    {
        if self.results.len() == self.records.len() {
            EdgeStep::Done
        } else {
            let record = &self.records[self.results.len()];
            match self.phase {
                EdgePhase::ResolveFrom => EdgeStep::Lookup { key: record.from.clone() },
                EdgePhase::ResolveTo { from: _ } => EdgeStep::Lookup { key: record.to.clone() },
                EdgePhase::Create { from, to } => EdgeStep::CreateEdge {
                    relationship: record.relationship.clone(),
                    from,
                    to,
                },
            }
        }
    }

    /// Records the settled outcome of the pending endpoint lookup: a found
    /// vertex advances the current record to its next phase; a missing
    /// vertex settles the record as `UnresolvedEndpoint` without
    /// attempting the edge; an error settles it with that error's kind.
    pub fn apply_lookup(&mut self, outcome: LookupOutcome)
        requires
            old(self).inv(),
            !old(self).done(),
            !(old(self).phase is Create),
        ensures
            final(self).inv(),
            final(self).records == old(self).records,
            match outcome {
                LookupOutcome::Found { handle } => {
                    &&& final(self).results == old(self).results
                    &&& match old(self).phase {
                        EdgePhase::ResolveFrom => final(self).phase == (EdgePhase::ResolveTo {
                            from: handle,
                        }),
                        EdgePhase::ResolveTo { from } => final(self).phase == (EdgePhase::Create {
                            from,
                            to: handle,
                        }),
                        EdgePhase::Create { .. } => false,
                    }
                },
                LookupOutcome::Missing => {
                    &&& final(self).results@ == old(self).results@.push(ElementResult::Failure {
                        kind: ErrorKind::UnresolvedEndpoint,
                        record_index: old(self).results@.len() as usize,
                    })
                    &&& final(self).phase == EdgePhase::ResolveFrom
                },
                LookupOutcome::Failed { error } => {
                    &&& final(self).results@ == old(self).results@.push(ElementResult::Failure {
                        kind: kind_of(error),
                        record_index: old(self).results@.len() as usize,
                    })
                    &&& final(self).phase == EdgePhase::ResolveFrom
                },
            },
    {
        let index = self.results.len();
        match outcome {
            LookupOutcome::Found { handle } => {
                let next = match self.phase {
                    EdgePhase::ResolveFrom => EdgePhase::ResolveTo { from: handle },
                    EdgePhase::ResolveTo { from } => EdgePhase::Create { from, to: handle },
                    EdgePhase::Create { from, to } => EdgePhase::Create { from, to },
                };
                self.phase = next;
            },
            LookupOutcome::Missing => {
                self.results.push(ElementResult::Failure {
                    kind: ErrorKind::UnresolvedEndpoint,
                    record_index: index,
                });
                self.phase = EdgePhase::ResolveFrom;
            },
            LookupOutcome::Failed { error } => {
                let kind = match error {
                    GraphError::ConnectionError => ErrorKind::ConnectionError,
                    GraphError::RemoteRejection => ErrorKind::RemoteRejection,
                };
                self.results.push(ElementResult::Failure { kind, record_index: index });
                self.phase = EdgePhase::ResolveFrom;
            },
        }
    }

    /// Records the settled outcome of the pending edge creation: the
    /// record settles as a success with the assigned id, or as a failure
    /// with the error's kind; either way the next record starts at its
    /// source lookup.
    pub fn apply_create(&mut self, outcome: CreateOutcome)
        requires
            old(self).inv(),
            !old(self).done(),
            old(self).phase is Create,
        ensures
            final(self).inv(),
            final(self).records == old(self).records,
            final(self).phase == EdgePhase::ResolveFrom,
            final(self).results@ == old(self).results@.push(
                crate::vertex_import::result_of_create(outcome, old(self).results@.len() as usize),
            ),
    {
        let index = self.results.len();
        match outcome {
            CreateOutcome::Created { element_id } => {
                self.results.push(ElementResult::Success { element_id });
            },
            CreateOutcome::Failed { error } => {
                let kind = match error {
                    GraphError::ConnectionError => ErrorKind::ConnectionError,
                    GraphError::RemoteRejection => ErrorKind::RemoteRejection,
                };
                self.results.push(ElementResult::Failure { kind, record_index: index });
            },
        }
        self.phase = EdgePhase::ResolveFrom;
    }

    /// The results recorded so far, in input order.
    pub fn results(&self) -> (rs: &Vec<ElementResult>)
        ensures
            rs == &self.results,
    {
        &self.results
    }
}

/// The subsequence of records whose recorded result is a failure, in
/// input order: the input of a re-run over just the failed rows.
pub open spec fn failed_of(records: Seq<Edge>, results: Seq<ElementResult>) -> Seq<Edge>
    decreases results.len(),
{
    if results.len() == 0 {
        Seq::empty()
    } else {
        failed_of(records, results.drop_last()) + if results.last() is Failure
            && results.len() <= records.len() {
            seq![records[results.len() - 1]]
        } else {
            Seq::<Edge>::empty()
        }
    }
}

/// Selects, from a completed pass, the records to hand to a re-run: one
/// per failed result, in input order, and none whose attempt succeeded.
pub fn failed_records(records: &Vec<Edge>, results: &Vec<ElementResult>) -> (r: Vec<Edge>)
    requires
        results@.len() == records@.len(),
    ensures
        r@ == failed_of(records@, results@),
{
    let n = results.len();
    let mut out: Vec<Edge> = Vec::new();
    for i in 0..n
        invariant
            n == results@.len(),
            results@.len() == records@.len(),
            out@ == failed_of(records@, results@.take(i as int)),
    {
        proof {
            assert(results@.take(i as int + 1).drop_last() =~= results@.take(i as int));
            assert(results@.take(i as int + 1).last() == results@[i as int]);
        }
        match results[i] {
            ElementResult::Failure { kind: _, record_index: _ } => {
                out.push(records[i].clone());
                proof {
                    assert(out@ =~= failed_of(records@, results@.take(i as int + 1)));
                }
            },
            ElementResult::Success { element_id: _ } => {
                proof {
                    assert(out@ =~= failed_of(records@, results@.take(i as int + 1)));
                }
            },
        }
    }
    proof {
        assert(results@.take(n as int) =~= results@);
    }
    out
}

/// Re-running over the failed subset retries exactly the previously
/// failed records: the subset holds the record of each failed position,
/// in input order, and no record whose attempt succeeded, so no
/// already-created edge is attempted again by the core.
pub proof fn lemma_rerun_exactly_failed(records: Seq<Edge>, results: Seq<ElementResult>)
    requires
        results.len() <= records.len(),
    ensures
        failed_of(records, results).len() == failure_positions(results).len(),
        forall|j: int|
            0 <= j < failure_positions(results).len() ==> {
                let p = #[trigger] failure_positions(results)[j];
                &&& 0 <= p < results.len()
                &&& results[p] is Failure
                &&& failed_of(records, results)[j] == records[p]
            },
        forall|p: int|
            0 <= p < results.len() && results[p] is Failure ==> exists|j: int|
                0 <= j < failure_positions(results).len() && failure_positions(results)[j] == p,
    decreases results.len(),
{
    if results.len() > 0 {
        let prev = results.drop_last();
        lemma_rerun_exactly_failed(records, prev);
        let fp = failure_positions(results);
        let fo = failed_of(records, results);
        let fp0 = failure_positions(prev);
        let fo0 = failed_of(records, prev);
        assert forall|j: int| 0 <= j < fp0.len() implies fp[j] == fp0[j] && fo[j] == fo0[j] by {
            assert(fp[j] == fp0[j]);
            assert(fo[j] == fo0[j]);
        }
        assert forall|p: int| 0 <= p < results.len() && results[p] is Failure implies exists|j: int|
            0 <= j < fp.len() && fp[j] == p by {
            if p < results.len() - 1 {
                assert(prev[p] == results[p]);
                let j0 = choose|j0: int| 0 <= j0 < fp0.len() && fp0[j0] == p;
                assert(fp[j0] == p);
            } else {
                assert(fp[fp.len() - 1] == p);
            }
        }
    }
}

/// A completed edge-import pass yields exactly one result per input
/// record, and each failure names the position of its source record.
pub proof fn lemma_edge_results_indexed(imp: EdgeImporter)
    requires
        imp.inv(),
        imp.done(),
    ensures
        imp.results@.len() == imp.records@.len(),
        forall|i: int| 0 <= i < imp.results@.len() ==> indexed(imp.results@[i], i),
{
}

} // verus!
