//! The registry of active keys, kept in a `dashmap::DashMap`.
//!
//! A key is a pair of vocabulary indices; the value stored with it is the
//! second at which it was allocated. Every operation that changes the map
//! takes the registry by `&mut`, so the contents are a function of the value
//! and one call is one indivisible step.

use vstd::prelude::*;
use dashmap::DashMap;

verus! {

/// `dashmap::DashMap`, carried as an opaque value.
#[verifier::external_type_specification]
#[verifier::external_body]
#[verifier::reject_recursive_types(K)]
#[verifier::reject_recursive_types(V)]
#[verifier::reject_recursive_types(S)]
pub struct ExDashMap<K, V, S>(DashMap<K, V, S>);

/// The map that the registry keeps: from a key to the second of its allocation.
pub type KeyMap = DashMap<(usize, usize), u64>;

/// The key-value pairs that a map holds.
pub uninterp spec fn held_entries(m: KeyMap) -> Map<(usize, usize), u64>;

/// `DashMap::new`: a fresh map holds nothing.
#[verifier::external_body]
fn map_new() -> (fresh: KeyMap)
    ensures
        held_entries(fresh) =~= Map::empty(),
{
    DashMap::new()
}

/// `DashMap::contains_key`: whether the key is among the held entries.
#[verifier::external_body]
fn map_contains_key(m: &KeyMap, key: &(usize, usize)) -> (b: bool)
    ensures
        b == held_entries(*m).dom().contains(*key),
{
    m.contains_key(key)
}

/// `DashMap::insert`: afterwards the key is held with the given value, and
/// nothing else has changed.
#[verifier::external_body]
fn map_insert(m: &mut KeyMap, key: (usize, usize), value: u64)
    ensures
        held_entries(*final(m)) == held_entries(*old(m)).insert(key, value),
{
    m.insert(key, value);
}

/// `DashMap::remove`: afterwards the key is not held, and nothing else has
/// changed.
#[verifier::external_body]
fn map_remove(m: &mut KeyMap, key: &(usize, usize))
    ensures
        held_entries(*final(m)) == held_entries(*old(m)).remove(*key),
{
    m.remove(key);
}

/// `DashMap::len`: the number of held entries.
#[verifier::external_body]
fn map_len(m: &KeyMap) -> (n: usize)
    ensures
        n == held_entries(*m).len(),
{
    m.len()
}

/// `DashMap::retain`, keeping the entries for which `stamped_after` holds of
/// the stored second: those stay as they were, the others leave.
#[verifier::external_body]
fn map_retain_after(m: &mut KeyMap, threshold: u64)
    ensures
        held_entries(*final(m)) == stamped_after_part(held_entries(*old(m)), threshold),
{
    m.retain(|_, stamp| stamped_after(*stamp, threshold));
}

/// Whether a stored second lies strictly after the threshold.
pub fn stamped_after(stamp: u64, threshold: u64) -> (b: bool)
    ensures
        b == (stamp > threshold),
{
    stamp > threshold
}

/// The part of `m` whose stored second lies strictly after the threshold.
pub open spec fn stamped_after_part(m: Map<(usize, usize), u64>, threshold: u64) -> Map<
    (usize, usize),
    u64,
> {
    Map::new(|k: (usize, usize)| m.dom().contains(k) && m[k] > threshold, |k: (usize, usize)| m[k])
}

/// The active keys, each with the second of its allocation.
pub struct ActiveKeys {
    map: KeyMap,
}

impl View for ActiveKeys {
    type V = Map<(usize, usize), u64>;

    closed spec fn view(&self) -> Map<(usize, usize), u64> {
        held_entries(self.map)
    }
}

impl ActiveKeys {
    /// Only finitely many keys are ever active.
    pub open spec fn wf(&self) -> bool {
        self@.dom().finite()
    }

    /// A registry with no active key.
    pub fn new() -> (r: Self)
        ensures
            r.wf(),
            r@ == Map::<(usize, usize), u64>::empty(),
    {
        ActiveKeys { map: map_new() }
    }

    /// Whether the key is active.
    pub fn contains(&self, key: (usize, usize)) -> (b: bool)
        ensures
            b == self@.dom().contains(key),
    {
        map_contains_key(&self.map, &key)
    }

    /// Records the key with its allocation second if and only if it is not
    /// active yet, and says whether it did.
    pub fn insert_if_absent(&mut self, key: (usize, usize), now: u64) -> (inserted: bool)
        requires
            old(self).wf(),
        ensures
            final(self).wf(),
            inserted == !old(self)@.dom().contains(key),
            inserted ==> final(self)@ == old(self)@.insert(key, now),
            !inserted ==> final(self)@ == old(self)@,
    {
        if map_contains_key(&self.map, &key) {
            false
        } else {
            map_insert(&mut self.map, key, now);
            true
        }
    }

    /// Removes the key; a key that is not active is left out in silence.
    pub fn remove(&mut self, key: (usize, usize))
        requires
            old(self).wf(),
        ensures
            final(self).wf(),
            final(self)@ == old(self)@.remove(key),
    {
        map_remove(&mut self.map, &key);
    }

    /// The number of active keys.
    pub fn len(&self) -> (n: usize)
        ensures
            n == self@.len(),
    {
        map_len(&self.map)
    }

    /// Drops every key whose allocation second is at or before the threshold.
    pub fn retain_after(&mut self, threshold: u64)
        requires
            old(self).wf(),
        ensures
            final(self).wf(),
            final(self)@ == stamped_after_part(old(self)@, threshold),
    {
        map_retain_after(&mut self.map, threshold);
        proof {
            assert(final(self)@.dom().subset_of(old(self)@.dom()));
            vstd::set_lib::lemma_set_subset_finite(old(self)@.dom(), final(self)@.dom());
        }
    }
}

} // verus!
