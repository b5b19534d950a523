//! Requeue scheduling: the fixed resync interval after a successful
//! reconcile and the fixed backoff after a failed one.
//!
//! The error policy is the sole retry backstop for transient failures: it
//! never fails itself and always returns a concrete, strictly positive
//! delay, so no resource is ever left tight-looping or unscheduled.

use vstd::prelude::*;
use vstd::string::StringExecFns;
use crate::Error;
use crate::Identity;

verus! {

/// Seconds after a successful reconcile before the resource is re-examined
/// even absent new notifications (the self-healing resync interval).
pub const RESYNC_SECONDS: u64 = 1800;

/// Seconds after a failed reconcile before the retry.
pub const BACKOFF_SECONDS: u64 = 360;

/// What a completed reconcile hands back to the scheduler: when to wake
/// this resource's key again.
#[derive(Clone, Copy, PartialEq, Eq, Structural, Debug)]
pub struct ReconcilerAction {
    pub requeue_after_secs: u64,
}

/// Maps a reconcile failure to the retry action. Never fails, and always
/// schedules the retry at the fixed, strictly positive backoff delay,
/// whatever the failure was.
pub fn error_policy(error: &Error) -> (r: ReconcilerAction)
    ensures
        r.requeue_after_secs == BACKOFF_SECONDS,
        r.requeue_after_secs > 0,
{
    ReconcilerAction { requeue_after_secs: BACKOFF_SECONDS }
}

/// The warning line reported for a reconcile failure, carrying the failed
/// resource's name and the cause.
pub fn failure_report(id: &Identity, error: &Error) -> (r: String)
    ensures
        r@ == "reconcile failed: "@ + id.namespace@ + "/"@ + id.name@ + ": "@ + error@,
{
    let mut line = "reconcile failed: ".to_owned();
    line.append(id.namespace.as_str());
    line.append("/");
    line.append(id.name.as_str());
    line.append(": ");
    line.append(error.message());
    line
}

} // verus!
