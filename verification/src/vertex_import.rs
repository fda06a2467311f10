//! The vertex importer: one creation attempt per input record, outcomes
//! recorded in input order. A record's failure never stops the records
//! after it; retries are the orchestrator's business, not this machine's.
//!
//! The remote round trip itself is performed by the caller: the machine
//! names the record to send, the caller reports how the service answered,
//! and the machine records the per-record result.

use vstd::prelude::*;
use crate::models::csv::Node;
use crate::report::{ElementResult, GraphError, indexed, kind_of};

verus! {

/// How the remote service answered one element-creation operation.
#[derive(Clone, Copy, PartialEq, Eq, Structural, Debug)]
pub enum CreateOutcome {
    /// The service created the element and assigned this id.
    Created { element_id: u64 },
    /// The operation failed, after any retries the orchestrator chose to
    /// spend, with this error.
    Failed { error: GraphError },
}

/// The result recorded for the record at position `index` when its
/// creation operation settles with `outcome`.
pub open spec fn result_of_create(outcome: CreateOutcome, index: usize) -> ElementResult {
    match outcome {
        CreateOutcome::Created { element_id } => ElementResult::Success { element_id },
        CreateOutcome::Failed { error } => ElementResult::Failure {
            kind: kind_of(error),
            record_index: index,
        },
    }
}

/// State of one vertex-import pass: the input records and the results
/// recorded so far, one per already-settled record, in input order.
pub struct VertexImporter {
    pub records: Vec<Node>,
    pub results: Vec<ElementResult>,
}

impl VertexImporter {
    /// At most one result per record, and each recorded failure carries
    /// the position of the record it belongs to.
    pub open spec fn inv(self) -> bool {
        &&& self.results@.len() <= self.records@.len()
        &&& forall|i: int| 0 <= i < self.results@.len() ==> indexed(self.results@[i], i)
    }

    /// Every record's outcome has been recorded.
    pub open spec fn done(self) -> bool {
        self.results@.len() == self.records@.len()
    }

    /// Starts a pass over the given records, with nothing settled yet.
    pub fn new(records: Vec<Node>) -> (imp: VertexImporter)
        ensures
            imp.inv(),
            imp.records == records,
            imp.results@ =~= Seq::<ElementResult>::empty(),
    {
        VertexImporter { records, results: Vec::new() }
    }

    /// The position of the next record to send, or `None` when the pass
    /// is complete.
    pub fn next_index(&self) -> (r: Option<usize>)
        requires
            self.inv(),
        ensures
            match r {
                Some(i) => !self.done() && i == self.results@.len(),
                None => self.done(),
            },
    {
        if self.results.len() < self.records.len() {
            Some(self.results.len())
        } else {
            None
        }
    }

    /// The record whose creation should be attempted next.
    pub fn current_record(&self) -> (n: &Node)
        requires
            !self.done(),
            self.inv(),
        ensures
            *n == self.records@[self.results@.len() as int],
    {
        &self.records[self.results.len()]
    }

    /// Records the settled outcome of the current record's creation and
    /// moves on to the next record, leaving earlier results untouched.
    pub fn apply(&mut self, outcome: CreateOutcome)
        requires
            old(self).inv(),
            !old(self).done(),
        ensures
            final(self).inv(),
            final(self).records == old(self).records,
            final(self).results@ == old(self).results@.push(
                result_of_create(outcome, old(self).results@.len() as usize),
            ),
    {
        let index = self.results.len();
        match outcome {
            CreateOutcome::Created { element_id } => {
                self.results.push(ElementResult::Success { element_id });
            },
            CreateOutcome::Failed { error } => {
                let kind = match error {
                    GraphError::ConnectionError => crate::report::ErrorKind::ConnectionError,
                    GraphError::RemoteRejection => crate::report::ErrorKind::RemoteRejection,
                };
                self.results.push(ElementResult::Failure { kind, record_index: index });
            },
        }
    }

    /// The results recorded so far, in input order.
    pub fn results(&self) -> (rs: &Vec<ElementResult>)
        ensures
            rs == &self.results,
    {
        &self.results
    }
}

/// A completed vertex-import pass yields exactly one result per input
/// record, and each result stands at (and each failure names) the position
/// of its source record.
pub proof fn lemma_vertex_results_indexed(imp: VertexImporter)
    requires
        imp.inv(),
        imp.done(),
    ensures
        imp.results@.len() == imp.records@.len(),
        forall|i: int| 0 <= i < imp.results@.len() ==> indexed(imp.results@[i], i),
{
}

} // verus!
