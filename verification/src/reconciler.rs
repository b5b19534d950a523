//! The per-resource convergence step.
//!
//! A reconcile invocation suspends at each call against the control plane,
//! so the step is split around its two network calls: `begin_reconcile`
//! notes the event and says what status patch to publish for which target;
//! the caller publishes it and looks the owned workload up; and
//! `complete_reconcile` turns the two outcomes into the invocation's
//! result, recording exactly one completed invocation in the metrics on
//! every path. `next_wake` then schedules the key's next examination.

use vstd::prelude::*;
use crate::clock;
use crate::journal::apply_params;
use crate::journal::desired_status_patch;
use crate::journal::Journal;
use crate::journal::PatchParams;
use crate::journal::StatusPatch;
use crate::metrics::Metrics;
use crate::policy::error_policy;
use crate::policy::ReconcilerAction;
use crate::policy::BACKOFF_SECONDS;
use crate::policy::RESYNC_SECONDS;
use crate::state::State;
use crate::workload::classify_lookup;
use crate::workload::LookupOutcome;
use crate::Error;
use crate::Identity;

verus! {

/// Context handed to the reconciler for one invocation: the shared state
/// record and the metrics instruments. The caller keeps the client handle.
pub struct Data {
    /// In-memory state readable by the status endpoint.
    pub state: State,
    /// Reconcile metrics.
    pub metrics: Metrics,
}

impl Data {
    /// Well-formed: the metrics are.
    pub open spec fn wf(&self) -> bool {
        self.metrics.wf()
    }
}

/// The status publication a reconcile asks its caller to perform: which
/// resource to patch, under which apply parameters, with what content.
pub struct PatchRequest {
    pub target: Identity,
    pub params: PatchParams,
    pub patch: StatusPatch,
}

/// Begins a reconcile invocation for one Journal: stamps the shared
/// state's last-event timestamp with the current instant and hands back
/// the idempotent status publication to perform. Touches no metric.
pub fn begin_reconcile(journal: &Journal, ctx: &mut Data) -> (r: PatchRequest)
    ensures
        final(ctx).state.reporter == old(ctx).state.reporter,
        final(ctx).metrics == old(ctx).metrics,
        r.target == journal.identity,
        r.params.field_manager@ == "cntrlr"@,
        r.params.force,
        r.patch.api_version@ == "engula.io/v1alpha1"@,
        r.patch.kind@ == "Journal"@,
        r.patch.deployment_status is None,
{
    let now = clock::now_millis();
    ctx.state.observe_event(now);
    PatchRequest {
        target: journal.identity.duplicate(),
        params: apply_params(),
        patch: desired_status_patch(),
    }
}

/// Completes a reconcile invocation from the outcomes of its two network
/// calls. A failed status patch aborts the invocation with that error; a
/// failed workload lookup does the same; an existing or absent workload
/// both complete the invocation, which then asks to be re-examined after
/// the fixed resync interval. On every path the metrics record exactly
/// one completed invocation of the given duration.
pub fn complete_reconcile(
    ctx: &mut Data,
    patch_result: Result<(), Error>,
    lookup: Option<LookupOutcome>,
    duration_ms: u64,
) -> (r: Result<ReconcilerAction, Error>)
    requires
        old(ctx).wf(),
        old(ctx).metrics.handled_events < u64::MAX,
        old(ctx).metrics.reconcile_duration.count < u64::MAX,
        old(ctx).metrics.reconcile_duration.sum_ms + duration_ms <= u64::MAX,
        patch_result matches Ok(_) ==> lookup is Some,
    ensures
        final(ctx).wf(),
        final(ctx).state == old(ctx).state,
        final(ctx).metrics.handled_events == old(ctx).metrics.handled_events + 1,
        final(ctx).metrics.reconcile_duration.count == old(
            ctx,
        ).metrics.reconcile_duration.count + 1,
        final(ctx).metrics.reconcile_duration.sum_ms == old(
            ctx,
        ).metrics.reconcile_duration.sum_ms + duration_ms,
        match patch_result {
            Err(e) => r matches Err(err) && err == e,
            Ok(_) => match lookup {
                Some(LookupOutcome::Failed(e)) => r matches Err(err) && err == e,
                Some(_) => r matches Ok(a) && a.requeue_after_secs == RESYNC_SECONDS,
                None => true,
            },
        },
{
    let outcome: Result<ReconcilerAction, Error> = match patch_result {
        Err(e) => Err(e),
        Ok(_) => match lookup {
            Some(l) => match classify_lookup(l) {
                Ok(_current) => Ok(ReconcilerAction { requeue_after_secs: RESYNC_SECONDS }),
                Err(e) => Err(e),
            },
            None => Ok(ReconcilerAction { requeue_after_secs: RESYNC_SECONDS }),
        },
    };
    ctx.metrics.record_invocation(duration_ms);
    outcome
}

/// The delay, in seconds, at which a completed invocation's key wakes
/// again: the action's own requeue delay on success, the error policy's
/// backoff on failure.
pub open spec fn next_wake_delay(outcome: Result<ReconcilerAction, Error>) -> u64 {
    match outcome {
        Ok(a) => a.requeue_after_secs,
        Err(_) => BACKOFF_SECONDS,
    }
}

/// Turns an invocation's outcome into the next wake for its key: the
/// returned action on success, the error policy's fixed backoff on
/// failure.
pub fn next_wake(outcome: &Result<ReconcilerAction, Error>) -> (r: ReconcilerAction)
    ensures
        r.requeue_after_secs == next_wake_delay(*outcome),
{
    match outcome {
        Ok(a) => ReconcilerAction { requeue_after_secs: a.requeue_after_secs },
        Err(e) => error_policy(e),
    }
}

/// Law: a reconcile invocation is never left unscheduled. Whatever its
/// outcome, as long as a successful one carries the fixed resync delay —
/// which `complete_reconcile` ensures — the next wake is strictly
/// positive: the resync interval on success, the backoff on failure.
pub proof fn lemma_always_scheduled(outcome: Result<ReconcilerAction, Error>)
    requires
        outcome matches Ok(a) ==> a.requeue_after_secs == RESYNC_SECONDS,
    ensures
        next_wake_delay(outcome) > 0,
{
}

} // verus!
