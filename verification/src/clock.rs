//! The one reading the library takes from the outside world directly: the
//! wall clock, for the shared state's last-event timestamp.

use vstd::prelude::*;

verus! {

/// Relies on chrono's conversion from the system clock (`From<SystemTime>
/// for DateTime<Utc>`, then `timestamp_millis`): the current wall-clock
/// instant, as milliseconds since the Unix epoch — negative when the
/// clock reads earlier than the epoch, which that conversion handles
/// without aborting. Nothing is assumed of the value: the system clock
/// may move arbitrarily between two calls.
#[verifier::external_body]
pub(crate) fn now_millis() -> i64 {
    chrono::DateTime::<chrono::Utc>::from(std::time::SystemTime::now()).timestamp_millis()
}

} // verus!
