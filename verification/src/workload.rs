//! The owned workload: the runtime object a Journal's spec is meant to
//! realize, and the reconciler's read of it.
//!
//! In current scope the workload is only read: its existence is checked
//! during a reconcile, and absence is a normal condition, not an error.
//! The desired-workload template is an extension point: it is constructed
//! but not yet applied to the cluster.

use vstd::prelude::*;
use crate::Error;
use crate::Identity;

verus! {

/// One container of the workload's pod template.
pub struct ContainerSpec {
    pub name: String,
    pub image: String,
}

/// A label key/value pair.
pub struct Label {
    pub key: String,
    pub value: String,
}

/// The owned workload as this controller reads and would declare it: a
/// replicated pod template selected by labels, under the same identity
/// convention as its owning Journal.
pub struct Deployment {
    pub name: String,
    pub namespace: String,
    pub labels: Vec<Label>,
    pub replicas: u32,
    pub selector: Vec<Label>,
    pub containers: Vec<ContainerSpec>,
}

/// The desired workload computed from a Journal's identity: name and
/// namespace mirror the Journal's, one replica, a single container, and
/// labels and selector initialized empty, to be filled from the spec.
pub fn desired_deploy(id: &Identity) -> (r: Deployment)
    ensures
        r.name@ == id.name@,
        r.namespace@ == id.namespace@,
        r.replicas == 1,
        r.labels@.len() == 0,
        r.selector@.len() == 0,
        r.containers@.len() == 1,
        r.containers@[0].name@ == Seq::<char>::empty(),
        r.containers@[0].image@ == Seq::<char>::empty(),
{
    let mut containers: Vec<ContainerSpec> = Vec::new();
    containers.push(ContainerSpec { name: String::new(), image: String::new() });
    Deployment {
        name: id.name.clone(),
        namespace: id.namespace.clone(),
        labels: Vec::new(),
        replicas: 1,
        selector: Vec::new(),
        containers,
    }
}

/// What a workload lookup against the control plane came back with.
pub enum LookupOutcome {
    /// The workload exists; its observed state is available for future
    /// diff logic.
    Found(Deployment),
    /// The workload has not been created yet: a normal condition.
    NotFound,
    /// The lookup itself failed: connectivity or API error.
    Failed(Error),
}

/// Classifies a lookup outcome as the reconciler treats it: an existing
/// workload is carried along, absence is normal control flow, and only a
/// retrieval failure is an error.
pub fn classify_lookup(outcome: LookupOutcome) -> (r: Result<Option<Deployment>, Error>)
    ensures
        match outcome {
            LookupOutcome::Found(d) => r matches Ok(Some(found)) && found == d,
            LookupOutcome::NotFound => r matches Ok(None),
            LookupOutcome::Failed(e) => r matches Err(err) && err == e,
        },
{
    match outcome {
        LookupOutcome::Found(d) => Ok(Some(d)),
        LookupOutcome::NotFound => Ok(None),
        LookupOutcome::Failed(e) => Err(e),
    }
}

} // verus!
