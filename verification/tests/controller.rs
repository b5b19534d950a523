use journal_operator::journal::apply_params;
use journal_operator::journal::apply_status_patch;
use journal_operator::journal::desired_status_patch;
use journal_operator::journal::JournalStatus;
use journal_operator::manager::startup_diagnostic;
use journal_operator::manager::Manager;
use journal_operator::metrics::handled_events_name;
use journal_operator::metrics::reconcile_duration_name;
use journal_operator::metrics::Metrics;
use journal_operator::policy::error_policy;
use journal_operator::policy::failure_report;
use journal_operator::policy::ReconcilerAction;
use journal_operator::reconciler::begin_reconcile;
use journal_operator::reconciler::complete_reconcile;
use journal_operator::reconciler::next_wake;
use journal_operator::reconciler::Data;
use journal_operator::scheduler::KeyState;
use journal_operator::scheduler::Scheduler;
use journal_operator::state::State;
use journal_operator::workload::classify_lookup;
use journal_operator::workload::desired_deploy;
use journal_operator::workload::LookupOutcome;
use journal_operator::Error;
use journal_operator::Identity;

fn ident(namespace: &str, name: &str) -> Identity {
    Identity { namespace: namespace.to_owned(), name: name.to_owned() }
}

fn fresh_data() -> Data {
    Data { state: State::new(), metrics: Metrics::new() }
}

fn client_error(message: &str) -> Error {
    Error::ClientError { message: message.to_owned() }
}

#[test]
fn status_patch_carries_discriminators_and_clears_owned_field() {
    let patch = desired_status_patch();
    assert_eq!(patch.api_version, "engula.io/v1alpha1");
    assert_eq!(patch.kind, "Journal");
    assert!(patch.deployment_status.is_none());
    let params = apply_params();
    assert_eq!(params.field_manager, "cntrlr");
    assert!(params.force);
}

#[test]
fn status_patch_is_idempotent() {
    let patch = desired_status_patch();
    let current = JournalStatus { deployment_status: Some("Available".to_owned()) };
    let once = apply_status_patch(&current, &patch);
    let twice = apply_status_patch(&once, &patch);
    assert_eq!(once.deployment_status, twice.deployment_status);
    assert!(once.deployment_status.is_none());
}

#[test]
fn successful_reconcile_requeues_at_resync_interval() {
    let mut ctx = fresh_data();
    let journal = journal_operator::journal::Journal {
        identity: ident("default", "logs"),
        payload: "journal spec".to_owned(),
        status: JournalStatus { deployment_status: None },
    };
    let request = begin_reconcile(&journal, &mut ctx);
    assert_eq!(request.target.namespace, "default");
    assert_eq!(request.target.name, "logs");
    let outcome = complete_reconcile(&mut ctx, Ok(()), Some(LookupOutcome::NotFound), 20);
    let action = outcome.expect("reconcile with absent workload succeeds");
    assert_eq!(action.requeue_after_secs, 1800);
}

#[test]
fn absent_workload_is_not_an_error() {
    let classified = classify_lookup(LookupOutcome::NotFound);
    assert!(matches!(classified, Ok(None)));
    let found = classify_lookup(LookupOutcome::Found(desired_deploy(&ident("ns", "db"))));
    match found {
        Ok(Some(deploy)) => assert_eq!(deploy.name, "db"),
        _ => panic!("existing workload must be carried along"),
    }
    let failed = classify_lookup(LookupOutcome::Failed(client_error("connection reset")));
    match failed {
        Err(Error::ClientError { message }) => assert_eq!(message, "connection reset"),
        _ => panic!("a retrieval failure must propagate"),
    }
}

#[test]
fn failed_lookup_fails_reconcile_and_schedules_backoff() {
    let mut ctx = fresh_data();
    let outcome = complete_reconcile(
        &mut ctx,
        Ok(()),
        Some(LookupOutcome::Failed(client_error("connection refused"))),
        15,
    );
    assert!(outcome.is_err());
    let wake = next_wake(&outcome);
    assert_eq!(wake.requeue_after_secs, 360);
    assert_eq!(ctx.metrics.handled_events, 1);
    assert_eq!(ctx.metrics.reconcile_duration.count, 1);
}

#[test]
fn failed_patch_fails_reconcile_with_that_error() {
    let mut ctx = fresh_data();
    let outcome = complete_reconcile(&mut ctx, Err(client_error("apply conflict")), None, 3);
    match outcome {
        Err(Error::ClientError { message }) => assert_eq!(message, "apply conflict"),
        _ => panic!("a failed status patch must abort the invocation"),
    }
    assert_eq!(ctx.metrics.handled_events, 1);
}

#[test]
fn every_completed_invocation_counts_exactly_once() {
    let mut ctx = fresh_data();
    let _ = complete_reconcile(&mut ctx, Ok(()), Some(LookupOutcome::NotFound), 5);
    assert_eq!(ctx.metrics.handled_events, 1);
    assert_eq!(ctx.metrics.reconcile_duration.count, 1);
    let _ = complete_reconcile(
        &mut ctx,
        Ok(()),
        Some(LookupOutcome::Failed(client_error("timeout"))),
        5,
    );
    assert_eq!(ctx.metrics.handled_events, 2);
    assert_eq!(ctx.metrics.reconcile_duration.count, 2);
    let _ = complete_reconcile(&mut ctx, Err(client_error("refused")), None, 5);
    assert_eq!(ctx.metrics.handled_events, 3);
    assert_eq!(ctx.metrics.reconcile_duration.count, 3);
}

#[test]
fn next_wake_is_strictly_positive_on_both_paths() {
    let ok: Result<ReconcilerAction, Error> = Ok(ReconcilerAction { requeue_after_secs: 1800 });
    assert!(next_wake(&ok).requeue_after_secs > 0);
    assert_eq!(next_wake(&ok).requeue_after_secs, 1800);
    let err: Result<ReconcilerAction, Error> = Err(client_error("unreachable"));
    assert!(next_wake(&err).requeue_after_secs > 0);
    assert_eq!(next_wake(&err).requeue_after_secs, 360);
}

#[test]
fn error_policy_returns_fixed_backoff() {
    let action = error_policy(&client_error("watch stream closed"));
    assert_eq!(action.requeue_after_secs, 360);
}

#[test]
fn failure_report_names_identity_and_cause() {
    let line = failure_report(&ident("prod", "journal-a"), &client_error("tls handshake"));
    assert_eq!(line, "reconcile failed: prod/journal-a: tls handshake");
}

#[test]
fn histogram_buckets_observe_durations_at_fixed_bounds() {
    let mut metrics = Metrics::new();
    metrics.record_invocation(10);
    metrics.record_invocation(20);
    metrics.record_invocation(999);
    metrics.record_invocation(70_000);
    assert_eq!(metrics.reconcile_duration.count, 4);
    assert_eq!(metrics.reconcile_duration.sum_ms, 10 + 20 + 999 + 70_000);
    assert_eq!(metrics.reconcile_duration.bucket_counts[0], 1);
    assert_eq!(metrics.reconcile_duration.bucket_counts[1], 1);
    assert_eq!(metrics.reconcile_duration.bucket_counts[4], 1);
    assert_eq!(metrics.reconcile_duration.bucket_counts[8], 1);
    assert_eq!(metrics.reconcile_duration.bucket_counts[2], 0);
    assert_eq!(metrics.handled_events, 4);
}

#[test]
fn instrument_names_are_fixed() {
    assert_eq!(handled_events_name(), "journal_controller_handled_events");
    assert_eq!(
        reconcile_duration_name(),
        "journal_controller_reconcile_duration_seconds"
    );
}

#[test]
fn notifications_during_inflight_reconcile_coalesce_into_one() {
    let id = ident("default", "logs");
    let mut scheduler = Scheduler::new();
    scheduler.notify(&id);
    assert_eq!(scheduler.key_state(&id), Some(KeyState::Scheduled));
    assert!(scheduler.begin(&id));
    assert_eq!(scheduler.key_state(&id), Some(KeyState::Reconciling { pending: false }));
    scheduler.notify(&id);
    scheduler.notify(&id);
    scheduler.notify(&id);
    assert_eq!(scheduler.key_state(&id), Some(KeyState::Reconciling { pending: true }));
    scheduler.complete(&id);
    assert_eq!(scheduler.key_state(&id), Some(KeyState::Scheduled));
    assert!(scheduler.begin(&id));
    scheduler.complete(&id);
    assert_eq!(scheduler.key_state(&id), Some(KeyState::Idle));
}

#[test]
fn no_second_reconcile_starts_while_one_is_in_flight() {
    let id = ident("default", "logs");
    let mut scheduler = Scheduler::new();
    scheduler.notify(&id);
    assert!(scheduler.begin(&id));
    assert!(!scheduler.begin(&id));
    scheduler.notify(&id);
    assert!(!scheduler.begin(&id));
    scheduler.complete(&id);
    assert!(scheduler.begin(&id));
}

#[test]
fn keys_are_independent_and_deduplicated() {
    let a = ident("default", "a");
    let b = ident("default", "b");
    let mut scheduler = Scheduler::new();
    scheduler.notify(&a);
    scheduler.notify(&a);
    scheduler.notify(&b);
    assert_eq!(scheduler.entries.len(), 2);
    assert!(scheduler.begin(&a));
    assert!(scheduler.begin(&b));
    scheduler.complete(&a);
    assert_eq!(scheduler.key_state(&a), Some(KeyState::Idle));
    assert_eq!(scheduler.key_state(&b), Some(KeyState::Reconciling { pending: false }));
}

#[test]
fn wake_deadline_triggers_reconcile_without_notification() {
    let id = ident("default", "logs");
    let mut scheduler = Scheduler::new();
    scheduler.notify(&id);
    assert!(scheduler.begin(&id));
    scheduler.complete(&id);
    assert_eq!(scheduler.key_state(&id), Some(KeyState::Idle));
    scheduler.wake(&id);
    assert_eq!(scheduler.key_state(&id), Some(KeyState::Scheduled));
}

#[test]
fn failed_probe_is_fatal_before_any_activity() {
    let built = Manager::new(Err(client_error("the server could not find the requested resource")));
    match built {
        Err(Error::ClientError { message }) => {
            assert_eq!(message, "the server could not find the requested resource");
        },
        Ok(_) => panic!("a failed existence probe must abort initialization"),
    }
    assert_eq!(
        startup_diagnostic(),
        "is the Journal resource kind registered? apply its schema to the cluster first"
    );
}

#[test]
fn successful_probe_builds_a_quiescent_manager() {
    let manager = Manager::new(Ok(())).expect("a successful probe initializes the manager");
    assert_eq!(manager.metrics().handled_events, 0);
    assert_eq!(manager.metrics().reconcile_duration.count, 0);
    assert_eq!(manager.state().reporter, "engula-operator");
    assert_eq!(manager.scheduler.entries.len(), 0);
}

#[test]
fn desired_workload_mirrors_identity_with_one_replica_and_one_container() {
    let deploy = desired_deploy(&ident("prod", "journal-a"));
    assert_eq!(deploy.name, "journal-a");
    assert_eq!(deploy.namespace, "prod");
    assert_eq!(deploy.replicas, 1);
    assert!(deploy.labels.is_empty());
    assert!(deploy.selector.is_empty());
    assert_eq!(deploy.containers.len(), 1);
    assert_eq!(deploy.containers[0].name, "");
    assert_eq!(deploy.containers[0].image, "");
}

#[test]
fn identities_compare_by_namespace_and_name() {
    let a = ident("default", "logs");
    let b = ident("default", "logs");
    let c = ident("other", "logs");
    assert!(a.same_as(&b));
    assert!(!a.same_as(&c));
    let copy = a.duplicate();
    assert!(copy.same_as(&a));
    assert_eq!(copy.namespace, "default");
    assert_eq!(copy.name, "logs");
}

#[test]
fn state_records_observed_events() {
    let mut state = State::new();
    assert_eq!(state.reporter, "engula-operator");
    state.observe_event(1_700_000_000_000);
    assert_eq!(state.last_event, 1_700_000_000_000);
    let snap = state.snapshot();
    assert_eq!(snap.last_event, 1_700_000_000_000);
    assert_eq!(snap.reporter, "engula-operator");
}
