//! A keyed counter over a key-value store: one signed integer per identity,
//! read-modify-written on each call, with an absent key reading as zero.
//!
//! The source material delegates durability to an external store reached
//! through `get`/`set` under a fixed label; the label never varies, so the
//! mapping is keyed by the identity alone. Here the store is a hash map held
//! by the counter; its consistency is whatever the map gives, and the
//! default-on-miss reading is an explicit lookup with a zero fallback, so
//! "never written" and "written as zero" stay distinguishable in the model.

use vstd::prelude::*;
use std::collections::HashMap;

verus! {

broadcast use vstd::std_specs::hash::group_hash_axioms;

/// The value recorded for `id`: what the store holds, or zero where the key
/// was never written.
pub open spec fn stored(m: Map<u64, i64>, id: u64) -> int {
    if m.contains_key(id) {
        m[id] as int
    } else {
        0
    }
}

/// The store after accumulating `delta` onto the value recorded for `id`.
pub open spec fn accumulate(m: Map<u64, i64>, id: u64, delta: i64) -> Map<u64, i64> {
    m.insert(id, (stored(m, id) + delta) as i64)
}

/// Law: accumulating onto an identity never written records exactly the
/// delta, so a read right after the first write returns it.
pub proof fn lemma_first_write_reads_back(m: Map<u64, i64>, id: u64, delta: i64)
    requires
        !m.contains_key(id),
    ensures
        stored(accumulate(m, id, delta), id) == delta,
{
}

/// Law: two accumulations onto the same identity add up, so the value read
/// afterwards is the starting value plus both deltas.
pub proof fn lemma_two_writes_add(m: Map<u64, i64>, id: u64, d1: i64, d2: i64)
    requires
        i64::MIN <= stored(m, id) + d1 <= i64::MAX,
        i64::MIN <= stored(m, id) + d1 + d2 <= i64::MAX,
    ensures
        stored(accumulate(accumulate(m, id, d1), id, d2), id) == stored(m, id) + d1 + d2,
{
}

/// Law: starting from an identity never written, two accumulations leave
/// exactly the sum of the two deltas.
pub proof fn lemma_two_writes_from_fresh(m: Map<u64, i64>, id: u64, d1: i64, d2: i64)
    requires
        !m.contains_key(id),
        i64::MIN <= d1 + d2 <= i64::MAX,
    ensures
        stored(accumulate(accumulate(m, id, d1), id, d2), id) == d1 + d2,
{
}

/// Law: distinct identities are independent; accumulating onto one leaves
/// the value read for any other unchanged.
pub proof fn lemma_identities_independent(m: Map<u64, i64>, id_written: u64, id_read: u64, delta: i64)
    requires
        id_written != id_read,
    ensures
        stored(accumulate(m, id_written, delta), id_read) == stored(m, id_read),
{
}

/// A per-identity accumulating counter backed by a key-value store. Entries
/// come into being on first write and are never deleted; a key never written
/// reads as zero.
pub struct PersistentCounter {
    store: HashMap<u64, i64>,
}

impl View for PersistentCounter {
    type V = Map<u64, i64>;

    closed spec fn view(&self) -> Map<u64, i64> {
        self.store@
    }
}

impl PersistentCounter {
    /// A fresh counter has no entry for any identity.
    pub fn new() -> (c: PersistentCounter)
        ensures
            c@ == Map::<u64, i64>::empty(),
    {
        PersistentCounter { store: HashMap::new() }
    }

    /// Reads the value for `identity`, defaulting to zero where no write has
    /// happened, without writing anything.
    pub fn get(&self, identity: u64) -> (value: i64)
        ensures
            value as int == stored(self@, identity),
    {
        match self.store.get(&identity) {
            Some(v) => *v,
            None => 0,
        }
    }

    /// Reads the value for `identity` (zero where absent), adds `delta`,
    /// writes the sum back under the same key, and returns it. The sum must
    /// stay representable: overflow behaviour is left unspecified, so those
    /// inputs are excluded.
    pub fn inc(&mut self, identity: u64, delta: i64) -> (value: i64)
        requires
            i64::MIN <= stored(old(self)@, identity) + delta <= i64::MAX,
        ensures
            value as int == stored(old(self)@, identity) + delta,
            final(self)@ == accumulate(old(self)@, identity, delta),
    {
        let current: i64 = self.get(identity);
        let next: i64 = current + delta;
        self.store.insert(identity, next);
        next
    }
}

} // verus!
