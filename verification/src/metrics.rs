//! Process-wide reconcile metrics: a monotonic handled-events counter and
//! a duration histogram with fixed bucket boundaries.
//!
//! Durations are kept in milliseconds; the histogram's bucket bounds are
//! the fixed boundaries 0.01, 0.1, 0.25, 0.5, 1, 5, 15 and 60 seconds,
//! plus an overflow bucket. Both instruments are append-only: nothing in
//! the library ever decreases them.

use vstd::prelude::*;

verus! {

/// Number of histogram buckets: one per fixed upper bound, plus the
/// overflow bucket for durations above the largest bound.
pub const NUM_BUCKETS: usize = 9;

/// The bucket a duration in milliseconds falls into: the first whose upper
/// bound it does not exceed, or the overflow bucket.
pub open spec fn bucket_index_of(ms: u64) -> int {
    if ms <= 10 {
        0
    } else if ms <= 100 {
        1
    } else if ms <= 250 {
        2
    } else if ms <= 500 {
        3
    } else if ms <= 1000 {
        4
    } else if ms <= 5000 {
        5
    } else if ms <= 15000 {
        6
    } else if ms <= 60000 {
        7
    } else {
        8
    }
}

/// A histogram of reconcile durations over the fixed bucket bounds.
pub struct DurationHistogram {
    /// Observations per bucket, one slot per bound plus the overflow slot.
    pub bucket_counts: Vec<u64>,
    /// Total number of observations.
    pub count: u64,
    /// Sum of all observed durations, in milliseconds.
    pub sum_ms: u64,
}

impl DurationHistogram {
    /// Well-formed: one slot per bucket, and no bucket holds more
    /// observations than were made in all.
    pub open spec fn wf(&self) -> bool {
        &&& self.bucket_counts@.len() == NUM_BUCKETS
        &&& forall|i: int| 0 <= i < NUM_BUCKETS ==> self.bucket_counts@[i] <= self.count
    }

    /// An empty histogram.
    pub fn new() -> (r: DurationHistogram)
        ensures
            r.wf(),
            r.count == 0,
            r.sum_ms == 0,
            forall|i: int| 0 <= i < NUM_BUCKETS ==> r.bucket_counts@[i] == 0,
    {
        let mut bucket_counts: Vec<u64> = Vec::new();
        let mut i: usize = 0;
        while i < NUM_BUCKETS
            invariant
                i <= NUM_BUCKETS,
                bucket_counts@.len() == i,
                forall|j: int| 0 <= j < i ==> bucket_counts@[j] == 0,
            decreases NUM_BUCKETS - i,
        {
            bucket_counts.push(0);
            i = i + 1;
        }
        DurationHistogram { bucket_counts, count: 0, sum_ms: 0 }
    }

    /// Records exactly one observation: the matching bucket and the total
    /// count each grow by one, every other bucket is untouched, and the
    /// duration is added to the running sum.
    pub fn observe(&mut self, ms: u64)
        requires
            old(self).wf(),
            old(self).count < u64::MAX,
            old(self).sum_ms + ms <= u64::MAX,
        ensures
            final(self).wf(),
            final(self).count == old(self).count + 1,
            final(self).sum_ms == old(self).sum_ms + ms,
            final(self).bucket_counts@ == old(self).bucket_counts@.update(
                bucket_index_of(ms),
                (old(self).bucket_counts@[bucket_index_of(ms)] + 1) as u64,
            ),
    {
        let idx: usize = if ms <= 10 {
            0
        } else if ms <= 100 {
            1
        } else if ms <= 250 {
            2
        } else if ms <= 500 {
            3
        } else if ms <= 1000 {
            4
        } else if ms <= 5000 {
            5
        } else if ms <= 15000 {
            6
        } else if ms <= 60000 {
            7
        } else {
            8
        };
        let current: u64 = self.bucket_counts[idx];
        self.bucket_counts[idx] = current + 1;
        self.count = self.count + 1;
        self.sum_ms = self.sum_ms + ms;
    }
}

/// The two write-only instruments the reconciler records into.
pub struct Metrics {
    /// Monotonic count of completed reconcile invocations.
    pub handled_events: u64,
    /// Histogram of reconcile durations.
    pub reconcile_duration: DurationHistogram,
}

impl Metrics {
    /// Well-formed: the histogram is.
    pub open spec fn wf(&self) -> bool {
        self.reconcile_duration.wf()
    }

    /// Fresh instruments, all at zero.
    pub fn new() -> (r: Metrics)
        ensures
            r.wf(),
            r.handled_events == 0,
            r.reconcile_duration.count == 0,
            r.reconcile_duration.sum_ms == 0,
    {
        Metrics { handled_events: 0, reconcile_duration: DurationHistogram::new() }
    }

    /// Records one completed reconcile invocation: the handled-events
    /// counter grows by exactly one and the histogram takes exactly one
    /// observation, whatever the invocation's outcome was.
    pub fn record_invocation(&mut self, duration_ms: u64)
        requires
            old(self).wf(),
            old(self).handled_events < u64::MAX,
            old(self).reconcile_duration.count < u64::MAX,
            old(self).reconcile_duration.sum_ms + duration_ms <= u64::MAX,
        ensures
            final(self).wf(),
            final(self).handled_events == old(self).handled_events + 1,
            final(self).reconcile_duration.count == old(self).reconcile_duration.count + 1,
            final(self).reconcile_duration.sum_ms == old(self).reconcile_duration.sum_ms
                + duration_ms,
    {
        self.handled_events = self.handled_events + 1;
        self.reconcile_duration.observe(duration_ms);
    }
}

/// The exported name of the handled-events counter.
pub fn handled_events_name() -> (r: String)
    ensures
        r@ == "journal_controller_handled_events"@,
{
    "journal_controller_handled_events".to_owned()
}

/// The exported name of the reconcile-duration histogram.
pub fn reconcile_duration_name() -> (r: String)
    ensures
        r@ == "journal_controller_reconcile_duration_seconds"@,
{
    "journal_controller_reconcile_duration_seconds".to_owned()
}

} // verus!
