//! The shared controller state: a small record, readable by an external
//! status endpoint, that the reconciler updates once per invocation.

use vstd::prelude::*;
use crate::clock;

verus! {

/// In-memory reconciler state: when the controller last handled an event,
/// and the identity it reports cluster-visible events under.
pub struct State {
    /// Wall-clock instant of the last handled event, in milliseconds since
    /// the Unix epoch.
    pub last_event: i64,
    /// The event-reporter identity.
    pub reporter: String,
}

impl State {
    /// A fresh state: the last-event timestamp starts at the current
    /// instant, and the reporter carries the controller's fixed identity.
    pub fn new() -> (r: State)
        ensures
            r.reporter@ == "engula-operator"@,
    {
        State { last_event: clock::now_millis(), reporter: "engula-operator".to_owned() }
    }

    /// Notes that an event is being handled at the given instant. Touches
    /// nothing but the last-event timestamp.
    pub fn observe_event(&mut self, now_ms: i64)
        ensures
            final(self).last_event == now_ms,
            final(self).reporter == old(self).reporter,
    {
        self.last_event = now_ms;
    }

    /// A copy of this state, for the status endpoint to export.
    pub fn snapshot(&self) -> (r: State)
        ensures
            r == *self,
    {
        State { last_event: self.last_event, reporter: self.reporter.clone() }
    }
}

} // verus!
