//! The concurrent tracking table: one binding per source message id, from
//! that id to its mirror and the latest known source snapshot.
//!
//! Bindings are created on a successful mirror post, replaced on edits, and
//! removed on delete or by the passive-expiry sweep — the sole guarantee of
//! bounded memory when delete notifications are missed.

use vstd::prelude::*;

use crate::message::MessageSnapshot;
use dashmap::DashMap;

verus! {

/// The live binding between a source message and its mirror.
#[derive(Clone)]
pub struct TrackedMessage {
    /// Latest known source snapshot, patched in place by edits.
    pub message: MessageSnapshot,
    /// The mirror message id, edited in place over the source's lifecycle.
    pub response: u64,
    /// The tick at which this binding was created; passive expiry measures
    /// the observation window from here.
    pub start_time: u64,
}

/// The binding created at tick `now` for a snapshot and its mirror.
pub open spec fn binding(message: MessageSnapshot, response: u64, now: u64) -> TrackedMessage {
    TrackedMessage { message, response, start_time: now }
}

impl TrackedMessage {
    /// The tick at which this binding was created.
    pub open spec fn created_at(self) -> u64 {
        self.start_time
    }

    pub fn new(message: MessageSnapshot, response: u64, now: u64) -> (t: TrackedMessage)
        ensures
            t == binding(message, response, now),
    {
        TrackedMessage { message, response, start_time: now }
    }

    /// Older than the observation window at tick `now`.
    pub open spec fn spec_expired(self, now: u64, window: u64) -> bool {
        now > self.created_at() + window
    }

    pub fn is_expired(&self, now: u64, window: u64) -> (r: bool)
        ensures
            r == self.spec_expired(now, window),
    {
        now > window && now - window > self.start_time
    }
}

/// What the backing concurrent map holds, as a mathematical map from source
/// message id to its binding.
pub uninterp spec fn tracker_contents(m: DashMap<u64, TrackedMessage>) -> Map<u64, TrackedMessage>;

/// The contents of a table that holds nothing.
pub open spec fn no_bindings() -> Map<u64, TrackedMessage> {
    Map::empty()
}

/// The bindings left by a sweep at tick `now`: exactly those not yet
/// expired, each unchanged.
pub open spec fn swept(m: Map<u64, TrackedMessage>, now: u64, window: u64) -> Map<
    u64,
    TrackedMessage,
> {
    Map::<u64, TrackedMessage>::new(
        |id: u64| m.dom().contains(id) && !m[id].spec_expired(now, window),
        |id: u64| m[id],
    )
}

/// The tracking table. At most one binding exists per source id at any
/// time: the contents form a map keyed by the id.
pub struct EditTracker {
    pub table: DashMap<u64, TrackedMessage>,
}

impl EditTracker {
    pub open spec fn contents(self) -> Map<u64, TrackedMessage> {
        tracker_contents(self.table)
    }

    /// Relies on dashmap::DashMap::new: a fresh map holds nothing.
    #[verifier::external_body]
    pub fn new() -> (t: EditTracker)
        ensures
            tracker_contents(t.table) == no_bindings(),
    {
        EditTracker { table: DashMap::new() }
    }

    /// Relies on dashmap::DashMap::insert: binds the key to the value,
    /// replacing any prior binding for it and touching no other.
    #[verifier::external_body]
    pub fn insert(&mut self, id: u64, t: TrackedMessage)
        ensures
            tracker_contents(final(self).table) == tracker_contents(old(self).table).insert(id, t),
    {
        self.table.insert(id, t);
    }

    /// Relies on dashmap::DashMap::get: returns the value bound to the key,
    /// if any, cloned out of the map.
    #[verifier::external_body]
    pub fn get(&self, id: u64) -> (r: Option<TrackedMessage>)
        ensures
            r == (if tracker_contents(self.table).dom().contains(id) {
                Some(tracker_contents(self.table)[id])
            } else {
                None::<TrackedMessage>
            }),
    {
        self.table.get(&id).map(|entry| entry.value().clone())
    }

    /// Relies on dashmap::DashMap::remove: removes the binding for the key
    /// and returns it, if it existed.
    #[verifier::external_body]
    pub fn remove(&mut self, id: u64) -> (r: Option<TrackedMessage>)
        ensures
            tracker_contents(final(self).table) == tracker_contents(old(self).table).remove(id),
            r == (if tracker_contents(old(self).table).dom().contains(id) {
                Some(tracker_contents(old(self).table)[id])
            } else {
                None::<TrackedMessage>
            }),
    {
        self.table.remove(&id).map(|kv| kv.1)
    }

    /// Relies on dashmap::DashMap::len: the number of stored pairs.
    #[verifier::external_body]
    pub fn len(&self) -> (n: usize)
        ensures
            n == tracker_contents(self.table).dom().len(),
    {
        self.table.len()
    }

    /// Relies on dashmap::DashMap::retain: keeps exactly the entries for
    /// which the predicate returns true, here the negation of the verified
    /// `TrackedMessage::is_expired`.
    #[verifier::external_body]
    fn retain_unexpired(&mut self, now: u64, window: u64)
        ensures
            tracker_contents(final(self).table) == swept(tracker_contents(old(self).table), now, window),
    {
        self.table.retain(|_, t| !t.is_expired(now, window));
    }

    /// Relies on dashmap::DashMap::shrink_to_fit: compacts the backing
    /// storage and leaves the contents as they are.
    #[verifier::external_body]
    fn compact(&mut self)
        ensures
            tracker_contents(final(self).table) == tracker_contents(old(self).table),
    {
        self.table.shrink_to_fit();
    }

    /// One pass of the passive-expiry sweep: removes every binding older
    /// than the observation window, keeps every younger one unchanged, and
    /// compacts the backing store.
    pub fn sweep(&mut self, now: u64, window: u64)
        ensures
            final(self).contents() == swept(old(self).contents(), now, window),
            forall|id: u64| #[trigger]
                final(self).contents().dom().contains(id) ==> !final(self).contents()[id].spec_expired(
                    now,
                    window,
                ),
    {
        self.retain_unexpired(now, window);
        self.compact();
    }
}

/// Expiry is monotonic in time: once a binding has crossed the observation
/// window it stays expired, so the first sweep after the crossing — at most
/// one sweep interval later — finds it expired.
pub proof fn lemma_expiry_monotonic(t: TrackedMessage, now1: u64, now2: u64, window: u64)
    requires
        t.spec_expired(now1, window),
        now1 <= now2,
    ensures
        t.spec_expired(now2, window),
{
}

/// A binding that has crossed the observation window before a sweep does
/// not survive that sweep, whatever else the table holds.
pub proof fn lemma_sweep_removes_expired(
    m: Map<u64, TrackedMessage>,
    now: u64,
    window: u64,
    id: u64,
)
    requires
        m.dom().contains(id),
        m[id].spec_expired(now, window),
    ensures
        !swept(m, now, window).dom().contains(id),
{
}

/// A binding still inside the observation window survives a sweep
/// unchanged.
pub proof fn lemma_sweep_keeps_live(m: Map<u64, TrackedMessage>, now: u64, window: u64, id: u64)
    requires
        m.dom().contains(id),
        !m[id].spec_expired(now, window),
    ensures
        swept(m, now, window).dom().contains(id),
        swept(m, now, window)[id] == m[id],
{
}

/// However many create attempts insert a binding for the same source id,
/// the table ends with a single binding for it — the one inserted last.
pub proof fn lemma_reinsert_single_binding(
    m: Map<u64, TrackedMessage>,
    id: u64,
    a: TrackedMessage,
    b: TrackedMessage,
)
    ensures
        m.insert(id, a).insert(id, b) == m.insert(id, b),
{
    assert(m.insert(id, a).insert(id, b) =~= m.insert(id, b));
}

} // verus!
