use gremlin_importer::edge_import::LookupOutcome;
use gremlin_importer::orchestrator::{
    mediate_create, mediate_lookup, should_abort, CreateMediation, LookupMediation, RunPolicy,
};
use gremlin_importer::report::{GraphError, VertexHandle};
use gremlin_importer::retry::{backoff_delay, retry_step, RetryPolicy, RetryState};
use gremlin_importer::vertex_import::CreateOutcome;

fn policy() -> RetryPolicy {
    RetryPolicy { max_retries: 2, base_delay_ms: 100 }
}

#[test]
fn connection_error_is_retried_up_to_the_bound_then_reported() {
    // First attempt and two retries all fail with ConnectionError: the
    // machine walks Attempting -> Retrying(1) -> Retrying(2) -> Failed,
    // so the record is marked failed with ConnectionError, not dropped.
    let s1 = retry_step(RetryState::Attempting, Some(GraphError::ConnectionError), &policy());
    assert_eq!(s1, RetryState::Retrying { attempts: 1 });
    let s2 = retry_step(s1, Some(GraphError::ConnectionError), &policy());
    assert_eq!(s2, RetryState::Retrying { attempts: 2 });
    let s3 = retry_step(s2, Some(GraphError::ConnectionError), &policy());
    assert_eq!(s3, RetryState::Failed { error: GraphError::ConnectionError });
}

#[test]
fn remote_rejection_is_never_retried() {
    // Exactly one attempt: the very first rejection settles the machine.
    let s = retry_step(RetryState::Attempting, Some(GraphError::RemoteRejection), &policy());
    assert_eq!(s, RetryState::Failed { error: GraphError::RemoteRejection });
    // Even mid-retry a rejection stops the retrying at once.
    let s = retry_step(
        RetryState::Retrying { attempts: 1 },
        Some(GraphError::RemoteRejection),
        &policy(),
    );
    assert_eq!(s, RetryState::Failed { error: GraphError::RemoteRejection });
}

#[test]
fn success_settles_the_machine() {
    let s = retry_step(RetryState::Retrying { attempts: 2 }, None, &policy());
    assert_eq!(s, RetryState::Succeeded);
}

#[test]
fn backoff_doubles_from_the_base_delay() {
    assert_eq!(backoff_delay(100, 1), 100);
    assert_eq!(backoff_delay(100, 2), 200);
    assert_eq!(backoff_delay(100, 3), 400);
    assert_eq!(backoff_delay(100, 10), 51200);
}

#[test]
fn backoff_saturates_instead_of_overflowing() {
    assert_eq!(backoff_delay(u64::MAX, 2), u64::MAX);
    assert_eq!(backoff_delay(u64::MAX / 2, 2), u64::MAX - 1);
    assert_eq!(backoff_delay(u64::MAX / 2 + 1, 3), u64::MAX);
}

#[test]
fn mediate_lookup_retries_connection_errors_with_backoff() {
    let raw = LookupOutcome::Failed { error: GraphError::ConnectionError };
    let m1 = mediate_lookup(raw, RetryState::Attempting, &policy());
    let s1 = match m1 {
        LookupMediation::RetryAfter { state, delay_ms } => {
            assert_eq!(state, RetryState::Retrying { attempts: 1 });
            assert_eq!(delay_ms, 100);
            state
        }
        other => panic!("expected a retry, got {:?}", other),
    };
    let m2 = mediate_lookup(raw, s1, &policy());
    let s2 = match m2 {
        LookupMediation::RetryAfter { state, delay_ms } => {
            assert_eq!(state, RetryState::Retrying { attempts: 2 });
            assert_eq!(delay_ms, 200);
            state
        }
        other => panic!("expected a second retry, got {:?}", other),
    };
    // The bound is exhausted: the lookup settles as a connection failure.
    let m3 = mediate_lookup(raw, s2, &policy());
    assert_eq!(
        m3,
        LookupMediation::Settle {
            outcome: LookupOutcome::Failed { error: GraphError::ConnectionError }
        }
    );
}

#[test]
fn mediate_lookup_settles_answers_at_once() {
    let found = LookupOutcome::Found { handle: VertexHandle { id: 4 } };
    assert_eq!(
        mediate_lookup(found, RetryState::Attempting, &policy()),
        LookupMediation::Settle { outcome: found }
    );
    // A missing vertex is an answer, not an error: it is not retried.
    assert_eq!(
        mediate_lookup(LookupOutcome::Missing, RetryState::Attempting, &policy()),
        LookupMediation::Settle { outcome: LookupOutcome::Missing }
    );
}

#[test]
fn mediate_create_never_retries_a_rejection() {
    let raw = CreateOutcome::Failed { error: GraphError::RemoteRejection };
    let m = mediate_create(raw, RetryState::Attempting, &policy());
    assert_eq!(m, CreateMediation::Settle { outcome: raw });
}

#[test]
fn mediate_create_passes_a_success_through() {
    let raw = CreateOutcome::Created { element_id: 12 };
    let m = mediate_create(raw, RetryState::Retrying { attempts: 1 }, &policy());
    assert_eq!(m, CreateMediation::Settle { outcome: raw });
}

#[test]
fn fail_fast_threshold_aborts_only_when_reached() {
    let fail_soft = RunPolicy { retry: policy(), fail_fast_threshold: None };
    assert!(!should_abort(1000, &fail_soft));
    let fail_fast = RunPolicy { retry: policy(), fail_fast_threshold: Some(3) };
    assert!(!should_abort(2, &fail_fast));
    assert!(should_abort(3, &fail_fast));
    assert!(should_abort(4, &fail_fast));
}
