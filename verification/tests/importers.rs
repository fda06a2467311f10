use gremlin_importer::edge_import::{EdgeImporter, EdgeStep, LookupOutcome};
use gremlin_importer::edge_import::failed_records;
use gremlin_importer::models::csv::{Edge, Node};
use gremlin_importer::orchestrator::{complete_run, exit_code, ResultSlots, RunOutcome};
use gremlin_importer::report::{aggregate, ElementResult, ErrorKind, GraphError, VertexHandle};
use gremlin_importer::vertex_import::{CreateOutcome, VertexImporter};

fn node(label: &str, name: &str) -> Node {
    Node::new(label.to_string(), vec![("name".to_string(), name.to_string())]).unwrap()
}

fn edge(from: &str, to: &str, relationship: &str) -> Edge {
    Edge::new(from.to_string(), to.to_string(), relationship.to_string()).unwrap()
}

fn handle(id: u64) -> VertexHandle {
    VertexHandle { id }
}

#[test]
fn vertex_import_reports_one_result_per_record_in_input_order() {
    let records = vec![node("person", "Alice"), node("person", "Bob"), node("person", "Carol")];
    let mut imp = VertexImporter::new(records);
    // Second record fails; the records around it are still processed.
    let outcomes = [
        CreateOutcome::Created { element_id: 10 },
        CreateOutcome::Failed { error: GraphError::RemoteRejection },
        CreateOutcome::Created { element_id: 11 },
    ];
    let mut fed = 0;
    while let Some(i) = imp.next_index() {
        assert_eq!(i, fed);
        assert_eq!(imp.current_record().label, "person");
        imp.apply(outcomes[i]);
        fed += 1;
    }
    let results = imp.results();
    assert_eq!(results.len(), 3);
    assert!(matches!(results[0], ElementResult::Success { element_id: 10 }));
    assert!(matches!(
        results[1],
        ElementResult::Failure { kind: ErrorKind::RemoteRejection, record_index: 1 }
    ));
    assert!(matches!(results[2], ElementResult::Success { element_id: 11 }));
}

#[test]
fn end_to_end_two_vertices_then_one_edge() {
    // Vertex pass: two person records import to two successes with
    // distinct assigned ids.
    let records = vec![node("person", "Alice"), node("person", "Bob")];
    let mut vimp = VertexImporter::new(records);
    vimp.apply(CreateOutcome::Created { element_id: 1 });
    vimp.apply(CreateOutcome::Created { element_id: 2 });
    let vresults = vimp.results();
    assert_eq!(vresults.len(), 2);
    let (a, b) = match (vresults[0], vresults[1]) {
        (
            ElementResult::Success { element_id: a },
            ElementResult::Success { element_id: b },
        ) => (a, b),
        other => panic!("expected two successes, got {:?}", other),
    };
    assert_ne!(a, b);

    // Edge pass: name-based resolution finds both endpoints, the edge is
    // created, and the report reads attempted 1, succeeded 1, failed 0.
    let mut eimp = EdgeImporter::new(vec![edge("Alice", "Bob", "knows")]);
    match eimp.current_step() {
        EdgeStep::Lookup { key } => assert_eq!(key, "Alice"),
        other => panic!("expected a lookup, got {:?}", other),
    }
    eimp.apply_lookup(LookupOutcome::Found { handle: handle(a) });
    match eimp.current_step() {
        EdgeStep::Lookup { key } => assert_eq!(key, "Bob"),
        other => panic!("expected a lookup, got {:?}", other),
    }
    eimp.apply_lookup(LookupOutcome::Found { handle: handle(b) });
    match eimp.current_step() {
        EdgeStep::CreateEdge { relationship, from, to } => {
            assert_eq!(relationship, "knows");
            assert_eq!(from.id, a);
            assert_eq!(to.id, b);
        }
        other => panic!("expected an edge creation, got {:?}", other),
    }
    eimp.apply_create(CreateOutcome::Created { element_id: 100 });
    assert!(matches!(eimp.current_step(), EdgeStep::Done));

    let report = aggregate(eimp.results());
    assert_eq!(report.attempted, 1);
    assert_eq!(report.succeeded, 1);
    assert_eq!(report.failed, 0);
    assert!(report.failures.is_empty());

    let outcome = complete_run(eimp.results());
    assert_eq!(exit_code(&outcome), 0);
}

#[test]
fn unresolved_endpoint_is_reported_and_run_exits_nonzero() {
    // The destination key was never created: the record fails as
    // UnresolvedEndpoint at index 0, the edge is not attempted, and the
    // remaining record is still processed and reported.
    let mut imp = EdgeImporter::new(vec![
        edge("Alice", "Nobody", "knows"),
        edge("Alice", "Bob", "knows"),
    ]);
    imp.apply_lookup(LookupOutcome::Found { handle: handle(1) });
    imp.apply_lookup(LookupOutcome::Missing);
    // Second record runs through its full resolve-resolve-create cycle.
    imp.apply_lookup(LookupOutcome::Found { handle: handle(1) });
    imp.apply_lookup(LookupOutcome::Found { handle: handle(2) });
    imp.apply_create(CreateOutcome::Created { element_id: 7 });

    let results = imp.results();
    assert_eq!(results.len(), 2);
    assert!(matches!(
        results[0],
        ElementResult::Failure { kind: ErrorKind::UnresolvedEndpoint, record_index: 0 }
    ));
    assert!(matches!(results[1], ElementResult::Success { element_id: 7 }));

    // Viewed alone, the failed record yields attempted 1, succeeded 0,
    // failed 1 with kind UnresolvedEndpoint at index 0.
    let first_only = vec![results[0]];
    let report = aggregate(&first_only);
    assert_eq!(report.attempted, 1);
    assert_eq!(report.succeeded, 0);
    assert_eq!(report.failed, 1);
    assert_eq!(report.failures, vec![(0, ErrorKind::UnresolvedEndpoint)]);

    let outcome = complete_run(results);
    assert_ne!(exit_code(&outcome), 0);
    assert!(matches!(outcome, RunOutcome::Completed { .. }));
}

#[test]
fn rerun_after_unresolved_endpoint_retries_exactly_the_failed_rows() {
    // First pass: the second record's destination does not exist yet.
    let records = vec![edge("Alice", "Bob", "knows"), edge("Alice", "Carol", "knows")];
    let mut imp = EdgeImporter::new(records.clone());
    imp.apply_lookup(LookupOutcome::Found { handle: handle(1) });
    imp.apply_lookup(LookupOutcome::Found { handle: handle(2) });
    imp.apply_create(CreateOutcome::Created { element_id: 50 });
    imp.apply_lookup(LookupOutcome::Found { handle: handle(1) });
    imp.apply_lookup(LookupOutcome::Missing);
    let first_results = imp.results().clone();
    assert!(matches!(
        first_results[1],
        ElementResult::Failure { kind: ErrorKind::UnresolvedEndpoint, record_index: 1 }
    ));

    // The re-run input holds exactly the failed row: the edge that
    // succeeded is not handed to the core again.
    let retry_rows = failed_records(&records, &first_results);
    assert_eq!(retry_rows.len(), 1);
    assert_eq!(retry_rows[0].from, "Alice");
    assert_eq!(retry_rows[0].to, "Carol");

    // Second pass, after the missing vertex was created: exactly the
    // previously failed row is attempted, and it succeeds.
    let mut rerun = EdgeImporter::new(retry_rows);
    rerun.apply_lookup(LookupOutcome::Found { handle: handle(1) });
    rerun.apply_lookup(LookupOutcome::Found { handle: handle(3) });
    rerun.apply_create(CreateOutcome::Created { element_id: 51 });
    let report = aggregate(rerun.results());
    assert_eq!(report.attempted, 1);
    assert_eq!(report.succeeded, 1);
    assert_eq!(report.failed, 0);
}

#[test]
fn self_loop_edge_is_attempted_and_reported_as_success() {
    // from == to and the key resolves: both lookups answer with the same
    // vertex, the creation is attempted, and acceptance is a success.
    let mut imp = EdgeImporter::new(vec![edge("Alice", "Alice", "knows")]);
    imp.apply_lookup(LookupOutcome::Found { handle: handle(9) });
    imp.apply_lookup(LookupOutcome::Found { handle: handle(9) });
    match imp.current_step() {
        EdgeStep::CreateEdge { relationship, from, to } => {
            assert_eq!(relationship, "knows");
            assert_eq!(from.id, 9);
            assert_eq!(to.id, 9);
        }
        other => panic!("expected an edge creation, got {:?}", other),
    }
    imp.apply_create(CreateOutcome::Created { element_id: 70 });
    let report = aggregate(imp.results());
    assert_eq!(report.attempted, 1);
    assert_eq!(report.succeeded, 1);
    assert_eq!(report.failed, 0);
}

#[test]
fn lookup_error_settles_the_record_with_that_error_kind() {
    let mut imp = EdgeImporter::new(vec![edge("Alice", "Bob", "knows")]);
    imp.apply_lookup(LookupOutcome::Failed { error: GraphError::ConnectionError });
    let results = imp.results();
    assert!(matches!(
        results[0],
        ElementResult::Failure { kind: ErrorKind::ConnectionError, record_index: 0 }
    ));
}

#[test]
fn edge_creation_rejection_is_reported_at_its_index() {
    let mut imp = EdgeImporter::new(vec![edge("Alice", "Bob", "knows")]);
    imp.apply_lookup(LookupOutcome::Found { handle: handle(1) });
    imp.apply_lookup(LookupOutcome::Found { handle: handle(2) });
    imp.apply_create(CreateOutcome::Failed { error: GraphError::RemoteRejection });
    let results = imp.results();
    assert!(matches!(
        results[0],
        ElementResult::Failure { kind: ErrorKind::RemoteRejection, record_index: 0 }
    ));
}

#[test]
fn aggregate_counts_partition_the_results() {
    let results = vec![
        ElementResult::Success { element_id: 1 },
        ElementResult::Failure { kind: ErrorKind::ConnectionError, record_index: 1 },
        ElementResult::Success { element_id: 2 },
        ElementResult::Failure { kind: ErrorKind::UnresolvedEndpoint, record_index: 3 },
    ];
    let report = aggregate(&results);
    assert_eq!(report.attempted, 4);
    assert_eq!(report.succeeded, 2);
    assert_eq!(report.failed, 2);
    assert_eq!(
        report.failures,
        vec![(1, ErrorKind::ConnectionError), (3, ErrorKind::UnresolvedEndpoint)]
    );
}

#[test]
fn result_slots_keep_input_order_under_out_of_order_completion() {
    // Operations complete in the order 2, 0, 1; the collected sequence is
    // still indexed by input position.
    let mut slots = ResultSlots::new(3);
    slots.set(2, ElementResult::Success { element_id: 30 });
    slots.set(0, ElementResult::Success { element_id: 10 });
    slots.set(1, ElementResult::Failure { kind: ErrorKind::RemoteRejection, record_index: 1 });
    let results = slots.collect();
    assert_eq!(results.len(), 3);
    assert!(matches!(results[0], ElementResult::Success { element_id: 10 }));
    assert!(matches!(
        results[1],
        ElementResult::Failure { kind: ErrorKind::RemoteRejection, record_index: 1 }
    ));
    assert!(matches!(results[2], ElementResult::Success { element_id: 30 }));
}

#[test]
fn session_failure_aborts_the_run_with_nonzero_exit() {
    let outcome = RunOutcome::Aborted { error: GraphError::ConnectionError };
    assert_ne!(exit_code(&outcome), 0);
}
