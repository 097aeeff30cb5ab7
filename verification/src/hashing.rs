use vstd::prelude::*;

use ahash::{AHashMap, AHashSet, RandomState};

verus! {

#[verifier::external_type_specification]
#[verifier::external_body]
pub struct ExRandomState(RandomState);

#[verifier::external_type_specification]
#[verifier::external_body]
#[verifier::reject_recursive_types(T)]
#[verifier::reject_recursive_types(S)]
pub struct ExAHashSet<T, S>(AHashSet<T, S>);

#[verifier::external_type_specification]
#[verifier::external_body]
#[verifier::reject_recursive_types(K)]
#[verifier::reject_recursive_types(V)]
#[verifier::reject_recursive_types(S)]
pub struct ExAHashMap<K, V, S>(AHashMap<K, V, S>);

/// A map from keys to counters.
pub type CounterMap = AHashMap<u64, usize>;

/// The keys that a set of keys holds.
pub uninterp spec fn key_set_contents(set: AHashSet<u64>) -> Set<u64>;

/// The entries that a map from keys to counters holds.
pub uninterp spec fn counter_map_contents(map: CounterMap) -> Map<u64, usize>;

/// Creates an empty set of keys with `AHashSet::new`.
#[verifier::external_body]
pub(crate) fn new_key_set() -> (set: AHashSet<u64>)
    ensures
        key_set_contents(set) == Set::<u64>::empty(),
{
    AHashSet::new()
}

/// Adds `key` to the set with `HashSet::insert`, which reports whether the
/// key was absent before.
#[verifier::external_body]
pub(crate) fn key_set_insert(set: &mut AHashSet<u64>, key: u64) -> (fresh: bool)
    ensures
        key_set_contents(*final(set)) == key_set_contents(*old(set)).insert(key),
        fresh == !key_set_contents(*old(set)).contains(key),
{
    set.insert(key)
}

/// Creates an empty map with `AHashMap::new`.
#[verifier::external_body]
pub(crate) fn new_counter_map() -> (counters: CounterMap)
    ensures
        counter_map_contents(counters) =~= Map::empty(),
{
    AHashMap::new()
}

/// Looks `key` up with `AHashMap::get`.
#[verifier::external_body]
pub(crate) fn counter_map_get(map: &CounterMap, key: u64) -> (value: Option<usize>)
    ensures
        value == (if counter_map_contents(*map).contains_key(key) {
            Some(counter_map_contents(*map)[key])
        } else {
            None::<usize>
        }),
{
    map.get(&key).copied()
}

/// Stores `value` under `key` with `AHashMap::insert`, replacing the value
/// that the key had.
#[verifier::external_body]
pub(crate) fn counter_map_insert(map: &mut CounterMap, key: u64, value: usize)
    ensures
        counter_map_contents(*final(map)) == counter_map_contents(*old(map)).insert(key, value),
{
    let _ = map.insert(key, value);
}

} // verus!
