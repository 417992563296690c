//! The map behind the tables of connections and streams.
use dashmap::DashMap;
use vstd::prelude::*;

verus! {

/// `dashmap::DashMap`, which is carried through and not looked into.
#[verifier::external_type_specification]
#[verifier::external_body]
#[verifier::reject_recursive_types(K)]
#[verifier::reject_recursive_types(V)]
#[verifier::reject_recursive_types(S)]
pub struct ExDashMap<K, V, S>(dashmap::DashMap<K, V, S>);

/// The entries of a map from numbers to numbers.
pub uninterp spec fn entries(map: DashMap<u64, u64>) -> Map<u64, u64>;

/// `DashMap::new`: the new map has no entries.
#[verifier::external_body]
pub(crate) fn map_new() -> (fresh: DashMap<u64, u64>)
    ensures
        (entries(fresh) == Map::<u64, u64>::empty()),
{
    DashMap::new()
}

/// `DashMap::insert`: afterwards the key has the value, whatever it had before, and no other key
/// is touched.
#[verifier::external_body]
pub(crate) fn map_insert(map: &mut DashMap<u64, u64>, key: u64, value: u64)
    ensures
        entries(*final(map)) == entries(*old(map)).insert(key, value),
{
    map.insert(key, value);
}

/// `DashMap::get`: the value of the key, if it has one.
#[verifier::external_body]
pub(crate) fn map_get(map: &DashMap<u64, u64>, key: u64) -> (value: Option<u64>)
    ensures
        value == entries(*map).get(key),
{
    map.get(&key).map(|entry| *entry.value())
}

/// `DashMap::entry` followed by `Entry::or_insert`: a key without a value gets the one given, a
/// key with a value keeps it, no other key is touched, and the value that the key now has comes
/// back.
#[verifier::external_body]
pub(crate) fn map_entry_or_insert(map: &mut DashMap<u64, u64>, key: u64, value: u64) -> (now: u64)
    ensures
        entries(*final(map)) == (if entries(*old(map)).contains_key(key) {
            entries(*old(map))
        } else {
            entries(*old(map)).insert(key, value)
        }),
        entries(*final(map)).get(key) == Some(now),
{
    *map.entry(key).or_insert(value)
}

/// `DashMap::iter`: the walk meets each key of the map once, and no other. In which order it
/// meets them is left open, as it hangs on the hasher's seed.
#[verifier::external_body]
pub(crate) fn map_keys(map: &DashMap<u64, u64>) -> (keys: Vec<u64>)
    ensures
        keys@.no_duplicates(),
        forall|key: u64| keys@.contains(key) <==> entries(*map).contains_key(key),
{
    map.iter().map(|entry| *entry.key()).collect()
}

} // verus!
