//! Lifecycle: validating the startup precondition, wiring state, metrics
//! and scheduler together, and exposing the accessors the status and
//! metrics endpoints read.

use vstd::prelude::*;
use crate::metrics::Metrics;
use crate::reconciler::Data;
use crate::scheduler::Scheduler;
use crate::state::State;
use crate::Error;

verus! {

/// Owner of the controller's long-lived pieces: the reconcile context
/// (shared state and metrics) and the per-identity scheduler.
pub struct Manager {
    pub data: Data,
    pub scheduler: Scheduler,
}

impl Manager {
    /// Well-formed: the context and the scheduler are.
    pub open spec fn wf(&self) -> bool {
        &&& self.data.wf()
        &&& self.scheduler.wf()
    }

    /// Initializes the controller from the outcome of the bounded
    /// existence probe for the managed resource kind. A failed probe —
    /// the kind is not registered, or the control plane cannot be
    /// reached — is fatal: no manager is built, so no watch or reconcile
    /// activity can ever begin and no accessor is reachable. A successful
    /// probe yields a manager with fresh state, zeroed metrics and an
    /// empty scheduler.
    pub fn new(probe: Result<(), Error>) -> (r: Result<Manager, Error>)
        ensures
            match probe {
                Ok(_) => r matches Ok(m) && m.wf() && m.data.metrics.handled_events == 0
                    && m.data.metrics.reconcile_duration.count == 0
                    && m.data.metrics.reconcile_duration.sum_ms == 0
                    && m.data.state.reporter@ == "engula-operator"@
                    && m.scheduler.entries@.len() == 0,
                Err(e) => r matches Err(err) && err == e,
            },
    {
        match probe {
            Err(e) => Err(e),
            Ok(_) => Ok(
                Manager {
                    data: Data { state: State::new(), metrics: Metrics::new() },
                    scheduler: Scheduler::new(),
                },
            ),
        }
    }

    /// Metrics getter, for the metrics endpoint to export.
    pub fn metrics(&self) -> (r: &Metrics)
        ensures
            r == &self.data.metrics,
    {
        &self.data.metrics
    }

    /// State getter: a snapshot for the status endpoint.
    pub fn state(&self) -> (r: State)
        ensures
            r == self.data.state,
    {
        self.data.state.snapshot()
    }
}

/// The diagnostic reported when the startup probe fails: the managed
/// resource kind must be registered before the controller starts.
pub fn startup_diagnostic() -> (r: String)
    ensures
        r@ == "is the Journal resource kind registered? apply its schema to the cluster first"@,
{
    "is the Journal resource kind registered? apply its schema to the cluster first".to_owned()
}

} // verus!
