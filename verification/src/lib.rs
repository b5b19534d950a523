//! A declarative reconciliation controller library for a "Journal" cluster
//! resource: the level-triggered reconcile loop, per-identity serialization of
//! reconcile invocations, idempotent status publication, requeue/backoff
//! scheduling, and the metrics and shared-state records that surround them.

use vstd::prelude::*;

mod clock;

pub mod journal;
pub mod manager;
pub mod metrics;
pub mod policy;
pub mod reconciler;
pub mod scheduler;
pub mod state;
pub mod workload;

verus! {

/// A failure of a call against the cluster control plane: connectivity or
/// API errors during the startup probe, the status patch or the workload
/// lookup. Recoverable during reconciliation, fatal at startup.
#[derive(Debug)]
pub enum Error {
    ClientError { message: String },
}

impl View for Error {
    type V = Seq<char>;

    open spec fn view(&self) -> Seq<char> {
        match self {
            Error::ClientError { message } => message@,
        }
    }
}

impl Error {
    /// The human-readable cause, for the caller to log or display.
    pub fn message(&self) -> (r: &str)
        ensures
            r@ == self@,
    {
        match self {
            Error::ClientError { message } => message.as_str(),
        }
    }
}

/// The (namespace, name) pair that uniquely identifies a managed resource
/// and its owned workload.
pub struct Identity {
    pub namespace: String,
    pub name: String,
}

impl View for Identity {
    type V = (Seq<char>, Seq<char>);

    open spec fn view(&self) -> (Seq<char>, Seq<char>) {
        (self.namespace@, self.name@)
    }
}

impl Identity {
    /// Whether two identities name the same resource.
    pub fn same_as(&self, other: &Identity) -> (r: bool)
        ensures
            r == (self@ == other@),
    {
        let eq = self.namespace == other.namespace && self.name == other.name;
        eq
    }

    /// A copy of this identity.
    pub fn duplicate(&self) -> (r: Identity)
        ensures
            r == *self,
    {
        Identity { namespace: self.namespace.clone(), name: self.name.clone() }
    }
}

} // verus!
