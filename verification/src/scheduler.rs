//! Per-identity serialization and deduplication of reconcile requests.
//!
//! The scheduler turns change notifications and elapsed wake deadlines
//! into "reconcile now" requests, with two guarantees: no two in-flight
//! reconciles ever share a resource identity, and notifications arriving
//! for an identity whose reconcile is in flight collapse into a single
//! pending re-invocation after it completes — level-triggered semantics,
//! where only the latest state matters, not every intermediate event.

use vstd::prelude::*;
use crate::Identity;

verus! {

/// The spec-level key of a resource identity: its namespace and name.
pub type IdKey = (Seq<char>, Seq<char>);

/// Lifecycle of one resource identity in the scheduler.
#[derive(Clone, Copy, PartialEq, Eq, Structural, Debug)]
pub enum KeyState {
    /// No reconcile due or running; the key waits for a notification or
    /// for its wake deadline.
    Idle,
    /// A reconcile is due but has not started.
    Scheduled,
    /// A reconcile is in flight; `pending` records whether any
    /// notification arrived meanwhile, however many there were.
    Reconciling { pending: bool },
}

/// What a change notification (or an elapsed wake deadline) does to a
/// key's state: a first observation or an idle key becomes due; a due key
/// stays due; an in-flight key keeps a single pending re-invocation.
pub open spec fn notified(s: Option<KeyState>) -> KeyState {
    match s {
        None => KeyState::Scheduled,
        Some(KeyState::Idle) => KeyState::Scheduled,
        Some(KeyState::Scheduled) => KeyState::Scheduled,
        Some(KeyState::Reconciling { pending: _ }) => KeyState::Reconciling { pending: true },
    }
}

/// What completing an in-flight reconcile does to its key's state: with a
/// pending re-invocation the key is due again at once, otherwise it goes
/// idle until a notification or its wake deadline. Any other state is
/// untouched.
pub open spec fn completed(s: KeyState) -> KeyState {
    match s {
        KeyState::Reconciling { pending } => if pending {
            KeyState::Scheduled
        } else {
            KeyState::Idle
        },
        other => other,
    }
}

/// One tracked identity and where it stands.
pub struct KeyEntry {
    pub identity: Identity,
    pub state: KeyState,
}

/// No two tracked entries name the same identity.
pub open spec fn distinct_identities(s: Seq<KeyEntry>) -> bool {
    forall|i: int, j: int| 0 <= i < j < s.len() ==> s[i].identity@ != s[j].identity@
}

/// The state recorded for a key in a sequence of entries: that of the
/// first entry naming it, if any.
pub open spec fn seq_state_of(s: Seq<KeyEntry>, key: IdKey) -> Option<KeyState>
    decreases s.len(),
{
    if s.len() == 0 {
        None
    } else if s[0].identity@ == key {
        Some(s[0].state)
    } else {
        seq_state_of(s.drop_first(), key)
    }
}

/// How many entries for a key are in flight.
pub open spec fn reconciling_count(s: Seq<KeyEntry>, key: IdKey) -> nat
    decreases s.len(),
{
    if s.len() == 0 {
        0
    } else {
        (if s[0].identity@ == key && s[0].state is Reconciling {
            1nat
        } else {
            0nat
        }) + reconciling_count(s.drop_first(), key)
    }
}

proof fn lemma_rest_distinct(s: Seq<KeyEntry>)
    requires
        distinct_identities(s),
        s.len() > 0,
    ensures
        distinct_identities(s.drop_first()),
{
    let rest = s.drop_first();
    assert forall|p: int, q: int| 0 <= p < q < rest.len() implies rest[p].identity@
        != rest[q].identity@ by {
        assert(rest[p] == s[p + 1]);
        assert(rest[q] == s[q + 1]);
    }
}

proof fn lemma_state_of_absent(s: Seq<KeyEntry>, key: IdKey)
    requires
        forall|i: int| 0 <= i < s.len() ==> s[i].identity@ != key,
    ensures
        seq_state_of(s, key) is None,
    decreases s.len(),
{
    if s.len() > 0 {
        assert forall|i: int| 0 <= i < s.drop_first().len() implies s.drop_first()[i].identity@
            != key by {
            assert(s.drop_first()[i] == s[i + 1]);
        }
        lemma_state_of_absent(s.drop_first(), key);
    }
}

proof fn lemma_state_of_present(s: Seq<KeyEntry>, i: int)
    requires
        distinct_identities(s),
        0 <= i < s.len(),
    ensures
        seq_state_of(s, s[i].identity@) == Some(s[i].state),
    decreases s.len(),
{
    if i > 0 {
        let rest = s.drop_first();
        lemma_rest_distinct(s);
        assert(s[0].identity@ != s[i].identity@);
        assert(rest[i - 1] == s[i]);
        lemma_state_of_present(rest, i - 1);
    }
}

proof fn lemma_state_of_update(s: Seq<KeyEntry>, i: int, e: KeyEntry)
    requires
        distinct_identities(s),
        0 <= i < s.len(),
        e.identity@ == s[i].identity@,
    ensures
        forall|k: IdKey|
            #[trigger] seq_state_of(s.update(i, e), k) == if k == s[i].identity@ {
                Some(e.state)
            } else {
                seq_state_of(s, k)
            },
    decreases s.len(),
{
    let t = s.update(i, e);
    if i == 0 {
        assert(t.drop_first() =~= s.drop_first());
        assert(t[0] == e);
    } else {
        let rest = s.drop_first();
        lemma_rest_distinct(s);
        assert(rest[i - 1] == s[i]);
        lemma_state_of_update(rest, i - 1, e);
        assert(t[0] == s[0]);
        assert(t.drop_first() =~= rest.update(i - 1, e));
        assert(s[0].identity@ != s[i].identity@);
        assert forall|k: IdKey| #[trigger] seq_state_of(t, k) == if k == s[i].identity@ {
            Some(e.state)
        } else {
            seq_state_of(s, k)
        } by {
            assert(seq_state_of(rest.update(i - 1, e), k) == if k == rest[i - 1].identity@ {
                Some(e.state)
            } else {
                seq_state_of(rest, k)
            });
        }
    }
}

proof fn lemma_state_of_push(s: Seq<KeyEntry>, e: KeyEntry)
    requires
        forall|i: int| 0 <= i < s.len() ==> s[i].identity@ != e.identity@,
    ensures
        forall|k: IdKey|
            #[trigger] seq_state_of(s.push(e), k) == if k == e.identity@ {
                Some(e.state)
            } else {
                seq_state_of(s, k)
            },
    decreases s.len(),
{
    let t = s.push(e);
    if s.len() == 0 {
        assert(t[0] == e);
        assert(t.drop_first() =~= Seq::<KeyEntry>::empty());
        assert forall|k: IdKey| #[trigger] seq_state_of(t, k) == if k == e.identity@ {
            Some(e.state)
        } else {
            seq_state_of(s, k)
        } by {
            if k != e.identity@ {
                assert(seq_state_of(t, k) == seq_state_of(t.drop_first(), k));
            }
        }
    } else {
        let rest = s.drop_first();
        assert forall|i: int| 0 <= i < rest.len() implies rest[i].identity@ != e.identity@ by {
            assert(rest[i] == s[i + 1]);
        }
        lemma_state_of_push(rest, e);
        assert(t[0] == s[0]);
        assert(t.drop_first() =~= rest.push(e));
        assert(s[0].identity@ != e.identity@);
        assert forall|k: IdKey| #[trigger] seq_state_of(t, k) == if k == e.identity@ {
            Some(e.state)
        } else {
            seq_state_of(s, k)
        } by {
            assert(seq_state_of(t.drop_first(), k) == seq_state_of(rest.push(e), k));
        }
    }
}

proof fn lemma_distinct_after_update(s: Seq<KeyEntry>, i: int, e: KeyEntry)
    requires
        distinct_identities(s),
        0 <= i < s.len(),
        e.identity@ == s[i].identity@,
    ensures
        distinct_identities(s.update(i, e)),
{
    let t = s.update(i, e);
    assert forall|p: int, q: int| 0 <= p < q < t.len() implies t[p].identity@
        != t[q].identity@ by {
        assert(t[p].identity@ == s[p].identity@);
        assert(t[q].identity@ == s[q].identity@);
    }
}

proof fn lemma_distinct_after_push(s: Seq<KeyEntry>, e: KeyEntry)
    requires
        distinct_identities(s),
        forall|i: int| 0 <= i < s.len() ==> s[i].identity@ != e.identity@,
    ensures
        distinct_identities(s.push(e)),
{
    let t = s.push(e);
    assert forall|p: int, q: int| 0 <= p < q < t.len() implies t[p].identity@
        != t[q].identity@ by {
        assert(t[p] == s[p]);
        if q < s.len() {
            assert(t[q] == s[q]);
        } else {
            assert(t[q] == e);
        }
    }
}

proof fn lemma_count_zero_when_absent(s: Seq<KeyEntry>, key: IdKey)
    requires
        forall|i: int| 0 <= i < s.len() ==> s[i].identity@ != key,
    ensures
        reconciling_count(s, key) == 0,
    decreases s.len(),
{
    if s.len() > 0 {
        assert forall|i: int| 0 <= i < s.drop_first().len() implies s.drop_first()[i].identity@
            != key by {
            assert(s.drop_first()[i] == s[i + 1]);
        }
        lemma_count_zero_when_absent(s.drop_first(), key);
    }
}

/// Law: per-identity serialization. Among entries with distinct
/// identities — which every well-formed scheduler keeps — at most one
/// entry for any identity is in flight at any instant: no two in-flight
/// reconciles share an identity.
pub proof fn lemma_at_most_one_in_flight(s: Seq<KeyEntry>, key: IdKey)
    requires
        distinct_identities(s),
    ensures
        reconciling_count(s, key) <= 1,
    decreases s.len(),
{
    if s.len() > 0 {
        let rest = s.drop_first();
        lemma_rest_distinct(s);
        if s[0].identity@ == key {
            assert forall|i: int| 0 <= i < rest.len() implies rest[i].identity@ != key by {
                assert(rest[i] == s[i + 1]);
                assert(s[0].identity@ != s[i + 1].identity@);
            }
            lemma_count_zero_when_absent(rest, key);
        } else {
            lemma_at_most_one_in_flight(rest, key);
        }
    }
}

/// Law: notifications coalesce. Once one notification has been taken in,
/// any further notification for the same key, before anything else
/// happens to it, leaves the key's state exactly as it was: duplicate and
/// intermediate events collapse into one.
pub proof fn lemma_notifications_coalesce(s: Option<KeyState>)
    ensures
        notified(Some(notified(s))) == notified(s),
{
}

/// The dedup/dispatch record: one entry per identity ever observed, each
/// with where its reconcile stands.
pub struct Scheduler {
    pub entries: Vec<KeyEntry>,
}

impl Scheduler {
    /// Well-formed: no identity is tracked twice.
    pub open spec fn wf(&self) -> bool {
        distinct_identities(self.entries@)
    }

    /// The state recorded for a key, if the key has been observed.
    pub open spec fn state_of(&self, key: IdKey) -> Option<KeyState> {
        seq_state_of(self.entries@, key)
    }

    /// An empty scheduler: nothing observed, nothing due, nothing in
    /// flight.
    pub fn new() -> (r: Scheduler)
        ensures
            r.wf(),
            r.entries@.len() == 0,
            forall|k: IdKey| #[trigger] r.state_of(k) is None,
    {
        Scheduler { entries: Vec::new() }
    }

    fn find_index(&self, id: &Identity) -> (r: Option<usize>)
        ensures
            match r {
                Some(i) => i < self.entries@.len() && self.entries@[i as int].identity@ == id@,
                None => forall|i: int|
                    0 <= i < self.entries@.len() ==> self.entries@[i].identity@ != id@,
            },
    {
        let mut i: usize = 0;
        while i < self.entries.len()
            invariant
                i <= self.entries@.len(),
                forall|j: int| 0 <= j < i ==> self.entries@[j].identity@ != id@,
            decreases self.entries@.len() - i,
        {
            if self.entries[i].identity.same_as(id) {
                return Some(i);
            }
            i = i + 1;
        }
        None
    }

    /// Takes one change notification for an identity in: a first
    /// observation or an idle key becomes due, a due key stays due, and an
    /// in-flight key keeps a single pending re-invocation. No other key
    /// moves.
    pub fn notify(&mut self, id: &Identity)
        requires
            old(self).wf(),
        ensures
            final(self).wf(),
            final(self).state_of(id@) == Some(notified(old(self).state_of(id@))),
            forall|k: IdKey|
                k != id@ ==> #[trigger] final(self).state_of(k) == old(self).state_of(k),
    {
        match self.find_index(id) {
            Some(i) => {
                let next: KeyState = match self.entries[i].state {
                    KeyState::Idle => KeyState::Scheduled,
                    KeyState::Scheduled => KeyState::Scheduled,
                    KeyState::Reconciling { pending: _ } => KeyState::Reconciling { pending: true },
                };
                let entry = KeyEntry { identity: id.duplicate(), state: next };
                proof {
                    lemma_state_of_present(self.entries@, i as int);
                    lemma_state_of_update(self.entries@, i as int, entry);
                    lemma_distinct_after_update(self.entries@, i as int, entry);
                }
                self.entries[i] = entry;
            },
            None => {
                let entry = KeyEntry { identity: id.duplicate(), state: KeyState::Scheduled };
                proof {
                    lemma_state_of_absent(self.entries@, id@);
                    lemma_state_of_push(self.entries@, entry);
                    lemma_distinct_after_push(self.entries@, entry);
                }
                self.entries.push(entry);
            },
        }
    }

    /// Takes an elapsed wake deadline in: the key is reconciled again even
    /// though no new notification arrived, with the same coalescing as a
    /// notification.
    pub fn wake(&mut self, id: &Identity)
        requires
            old(self).wf(),
        ensures
            final(self).wf(),
            final(self).state_of(id@) == Some(notified(old(self).state_of(id@))),
            forall|k: IdKey|
                k != id@ ==> #[trigger] final(self).state_of(k) == old(self).state_of(k),
    {
        self.notify(id);
    }

    /// Starts the reconcile of a due key. Returns whether it started: a
    /// key that is unknown, idle, or already in flight is left exactly as
    /// it was — in particular, a reconcile never starts while another for
    /// the same identity is outstanding.
    pub fn begin(&mut self, id: &Identity) -> (r: bool)
        requires
            old(self).wf(),
        ensures
            final(self).wf(),
            r == (old(self).state_of(id@) == Some(KeyState::Scheduled)),
            r ==> final(self).state_of(id@) == Some(KeyState::Reconciling { pending: false }),
            !r ==> *final(self) == *old(self),
            forall|k: IdKey|
                k != id@ ==> #[trigger] final(self).state_of(k) == old(self).state_of(k),
    {
        match self.find_index(id) {
            Some(i) => {
                proof {
                    lemma_state_of_present(self.entries@, i as int);
                }
                let due = match self.entries[i].state {
                    KeyState::Scheduled => true,
                    _ => false,
                };
                if due {
                    let entry = KeyEntry {
                        identity: id.duplicate(),
                        state: KeyState::Reconciling { pending: false },
                    };
                    proof {
                        lemma_state_of_update(self.entries@, i as int, entry);
                        lemma_distinct_after_update(self.entries@, i as int, entry);
                    }
                    self.entries[i] = entry;
                    true
                } else {
                    false
                }
            },
            None => {
                proof {
                    lemma_state_of_absent(self.entries@, id@);
                }
                false
            },
        }
    }

    /// Completes the in-flight reconcile of a key: with a pending
    /// re-invocation it becomes due again at once — exactly one further
    /// reconcile, however many notifications arrived meanwhile — and
    /// otherwise it goes idle until its next wake. No other key moves.
    pub fn complete(&mut self, id: &Identity)
        requires
            old(self).wf(),
            match old(self).state_of(id@) {
                Some(s) => s is Reconciling,
                None => false,
            },
        ensures
            final(self).wf(),
            match old(self).state_of(id@) {
                Some(s) => final(self).state_of(id@) == Some(completed(s)),
                None => false,
            },
            forall|k: IdKey|
                k != id@ ==> #[trigger] final(self).state_of(k) == old(self).state_of(k),
    {
        match self.find_index(id) {
            Some(i) => {
                proof {
                    lemma_state_of_present(self.entries@, i as int);
                }
                let next: KeyState = match self.entries[i].state {
                    KeyState::Reconciling { pending } => if pending {
                        KeyState::Scheduled
                    } else {
                        KeyState::Idle
                    },
                    other => other,
                };
                let entry = KeyEntry { identity: id.duplicate(), state: next };
                proof {
                    lemma_state_of_update(self.entries@, i as int, entry);
                    lemma_distinct_after_update(self.entries@, i as int, entry);
                }
                self.entries[i] = entry;
            },
            None => {
                proof {
                    lemma_state_of_absent(self.entries@, id@);
                }
            },
        }
    }

    /// The state recorded for an identity, for callers outside the
    /// verifier's view.
    pub fn key_state(&self, id: &Identity) -> (r: Option<KeyState>)
        requires
            self.wf(),
        ensures
            r == self.state_of(id@),
    {
        match self.find_index(id) {
            Some(i) => {
                proof {
                    lemma_state_of_present(self.entries@, i as int);
                }
                Some(self.entries[i].state)
            },
            None => {
                proof {
                    lemma_state_of_absent(self.entries@, id@);
                }
                None
            },
        }
    }
}

} // verus!
