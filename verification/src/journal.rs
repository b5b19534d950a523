//! The managed Journal resource and its idempotent status publication.
//!
//! The controller owns exactly one status field, `deployment_status`, and
//! republishes it on every reconcile through a server-side apply patch with
//! a fixed field-manager identity in force mode. The patch is safe to
//! replay: applying it any number of times yields the same status as
//! applying it once.

use vstd::prelude::*;
use crate::Identity;

verus! {

/// The status sub-record of a managed Journal: the observed workload
/// health, absent until a workload has been observed.
pub struct JournalStatus {
    pub deployment_status: Option<String>,
}

/// A managed Journal resource as the reconciler reads it: an immutable
/// identity, an opaque domain payload, and the status sub-record.
pub struct Journal {
    pub identity: Identity,
    pub payload: String,
    pub status: JournalStatus,
}

/// The content of the status patch the reconciler publishes: the typed
/// object's discriminators and the one controller-owned status field.
pub struct StatusPatch {
    pub api_version: String,
    pub kind: String,
    pub deployment_status: Option<String>,
}

/// Parameters of a server-side apply: the acting field manager and whether
/// conflicting ownership of the published fields is overwritten.
pub struct PatchParams {
    pub field_manager: String,
    pub force: bool,
}

/// The patch parameters the reconciler always uses: the fixed field-manager
/// identity, in force mode.
pub fn apply_params() -> (r: PatchParams)
    ensures
        r.field_manager@ == "cntrlr"@,
        r.force,
{
    PatchParams { field_manager: "cntrlr".to_owned(), force: true }
}

/// The status patch a reconcile publishes: the Journal discriminators with
/// the controller-owned `deployment_status` cleared.
pub fn desired_status_patch() -> (r: StatusPatch)
    ensures
        r.api_version@ == "engula.io/v1alpha1"@,
        r.kind@ == "Journal"@,
        r.deployment_status is None,
{
    StatusPatch {
        api_version: "engula.io/v1alpha1".to_owned(),
        kind: "Journal".to_owned(),
        deployment_status: None,
    }
}

/// What the server-side merge of a status patch leaves as the resulting
/// status: the controller-owned field takes the patched value; the status
/// record holds no other field, and the patch touches nothing else.
pub open spec fn spec_apply_status_patch(current: JournalStatus, patch: StatusPatch) -> JournalStatus {
    JournalStatus { deployment_status: patch.deployment_status }
}

/// Applies a status patch to a current status, as the control plane's
/// server-side merge does for the fields this controller owns.
pub fn apply_status_patch(current: &JournalStatus, patch: &StatusPatch) -> (r: JournalStatus)
    ensures
        r == spec_apply_status_patch(*current, *patch),
{
    let deployment_status = match &patch.deployment_status {
        Some(s) => Some(s.clone()),
        None => None,
    };
    JournalStatus { deployment_status }
}

/// Law: the status patch is idempotent. Applying the same patch twice in
/// succession, with no intervening change, yields exactly the status that
/// applying it once yields.
pub proof fn lemma_status_patch_idempotent(current: JournalStatus, patch: StatusPatch)
    ensures
        spec_apply_status_patch(spec_apply_status_patch(current, patch), patch)
            == spec_apply_status_patch(current, patch),
{
}

} // verus!
