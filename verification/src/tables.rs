//! Trusted boundary to dashmap. The hub keeps its three tables — entities,
//! sessions, rooms — in `dashmap::DashMap`; each table's contents are named
//! by an abstract map or set, and the wrappers below state what each call
//! does to those contents, as dashmap's source shows.

use vstd::prelude::*;
use dashmap::DashMap;
use crate::models::Boon;
use crate::honk::Honk;

verus! {

#[verifier::external_type_specification]
#[verifier::external_body]
#[verifier::reject_recursive_types(K)]
#[verifier::reject_recursive_types(V)]
#[verifier::reject_recursive_types(S)]
pub struct ExDashMap<K, V, S>(DashMap<K, V, S>);

/// What the entity table holds: entity id to entity record.
pub uninterp spec fn bane_of(m: DashMap<i64, Boon>) -> Map<i64, Boon>;

/// Relies on dashmap::DashMap::new: a table with no entries.
#[verifier::external_body]
pub fn bane_new() -> (r: DashMap<i64, Boon>)
    ensures
        bane_of(r) =~= Map::empty(),
{
    DashMap::new()
}

/// Relies on dashmap::DashMap::insert: adds or replaces the entry for a key.
#[verifier::external_body]
pub fn bane_insert(m: &mut DashMap<i64, Boon>, k: i64, v: Boon)
    ensures
        bane_of(*final(m)) == bane_of(*old(m)).insert(k, v),
{
    m.insert(k, v);
}

/// Relies on dashmap::DashMap::get: the value stored under a key, if any.
#[verifier::external_body]
pub fn bane_get(m: &DashMap<i64, Boon>, k: i64) -> (r: Option<Boon>)
    ensures
        r == if bane_of(*m).contains_key(k) {
            Some(bane_of(*m)[k])
        } else {
            None::<Boon>
        },
{
    m.get(&k).map(|e| e.value().clone())
}

/// Relies on dashmap::DashMap::remove: drops the entry for a key.
#[verifier::external_body]
pub fn bane_remove(m: &mut DashMap<i64, Boon>, k: i64) -> (r: bool)
    ensures
        bane_of(*final(m)) == bane_of(*old(m)).remove(k),
        r == bane_of(*old(m)).contains_key(k),
{
    m.remove(&k).is_some()
}

/// Relies on dashmap::DashMap::iter: visits each entry exactly once.
#[verifier::external_body]
pub fn bane_entries(m: &DashMap<i64, Boon>) -> (r: Vec<(i64, Boon)>)
    ensures
        r@.map_values(|p: (i64, Boon)| p.0).no_duplicates(),
        forall|i: int|
            0 <= i < r@.len() ==> bane_of(*m).contains_key(#[trigger] r@[i].0) && r@[i].1 == bane_of(
                *m,
            )[r@[i].0],
        forall|k: i64|
            bane_of(*m).contains_key(k) ==> exists|i: int| 0 <= i < r@.len() && #[trigger] r@[i].0 == k,
        r@.len() == bane_of(*m).dom().len(),
{
    m.iter().map(|e| (*e.key(), e.value().clone())).collect()
}

/// What the session table holds: the ids of the registered sessions.
pub uninterp spec fn bonks_of(m: DashMap<u128, ()>) -> Set<u128>;

/// Relies on dashmap::DashMap::new: a table with no entries.
#[verifier::external_body]
pub fn bonks_new() -> (r: DashMap<u128, ()>)
    ensures
        bonks_of(r) == Set::<u128>::empty(),
{
    DashMap::new()
}

/// Relies on dashmap::DashMap::insert.
#[verifier::external_body]
pub fn bonks_insert(m: &mut DashMap<u128, ()>, k: u128)
    ensures
        bonks_of(*final(m)) == bonks_of(*old(m)).insert(k),
{
    m.insert(k, ());
}

/// Relies on dashmap::DashMap::remove; removing an absent id is a no-op.
#[verifier::external_body]
pub fn bonks_remove(m: &mut DashMap<u128, ()>, k: u128)
    ensures
        bonks_of(*final(m)) == bonks_of(*old(m)).remove(k),
{
    m.remove(&k);
}

/// Relies on dashmap::DashMap::contains_key.
#[verifier::external_body]
pub fn bonks_contains(m: &DashMap<u128, ()>, k: u128) -> (r: bool)
    ensures
        r == bonks_of(*m).contains(k),
{
    m.contains_key(&k)
}

/// Relies on dashmap::DashMap::len.
#[verifier::external_body]
pub fn bonks_len(m: &DashMap<u128, ()>) -> (r: usize)
    requires
        bonks_of(*m).finite(),
    ensures
        r == bonks_of(*m).len(),
{
    m.len()
}

/// Relies on dashmap::DashMap::iter: visits each entry exactly once.
#[verifier::external_body]
pub fn bonks_ids(m: &DashMap<u128, ()>) -> (r: Vec<u128>)
    ensures
        r@.no_duplicates(),
        r@.to_set() == bonks_of(*m),
{
    m.iter().map(|e| *e.key()).collect()
}

/// What the room registry holds: room path to room.
pub uninterp spec fn rooms_of(m: DashMap<String, Honk>) -> Map<Seq<char>, Honk>;

/// Relies on dashmap::DashMap::new: a registry with no entries.
#[verifier::external_body]
pub fn rooms_new() -> (r: DashMap<String, Honk>)
    ensures
        rooms_of(r) =~= Map::empty(),
{
    DashMap::new()
}

/// Relies on dashmap::DashMap::insert.
#[verifier::external_body]
pub fn rooms_insert(m: &mut DashMap<String, Honk>, k: String, v: Honk)
    ensures
        rooms_of(*final(m)) == rooms_of(*old(m)).insert(k@, v),
{
    m.insert(k, v);
}

/// Relies on dashmap::DashMap::remove: takes the room registered under a
/// path out of the registry, handing it back.
#[verifier::external_body]
pub fn rooms_take(m: &mut DashMap<String, Honk>, k: &String) -> (r: Option<Honk>)
    ensures
        rooms_of(*final(m)) == rooms_of(*old(m)).remove(k@),
        r == if rooms_of(*old(m)).contains_key(k@) {
            Some(rooms_of(*old(m))[k@])
        } else {
            None::<Honk>
        },
{
    m.remove(k).map(|p| p.1)
}

/// Relies on dashmap::DashMap::iter: visits each entry exactly once.
#[verifier::external_body]
pub fn rooms_paths(m: &DashMap<String, Honk>) -> (r: Vec<String>)
    ensures
        r@.map_values(|s: String| s@).no_duplicates(),
        r@.map_values(|s: String| s@).to_set() == rooms_of(*m).dom(),
{
    m.iter().map(|e| e.key().clone()).collect()
}

} // verus!
