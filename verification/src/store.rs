//! The bounded concurrent map that backs every cache instance.
//!
//! The map is moka's `sync::Cache`. Nothing in this file is proved: each
//! function states what moka's source shows of one method, for a map that
//! is reached through one exclusive reference at a time.

use vstd::prelude::*;
use crate::effect::{dropped, has_room, hit, missed, offered, within_bound};
use crate::snapshot::{Snapshot, SnapshotView};

verus! {

/// moka's `sync::Cache`. Nothing of what is inside it is visible here.
#[verifier::external_type_specification]
#[verifier::external_body]
#[verifier::reject_recursive_types(K)]
#[verifier::reject_recursive_types(V)]
#[verifier::reject_recursive_types(S)]
pub struct ExMokaCache<K, V, S>(moka::sync::Cache<K, V, S>);

/// The backing map of one cache instance.
pub type Store = moka::sync::Cache<i64, Snapshot>;

/// The entries of a cache, by key.
pub type Entries = Map<i64, SnapshotView>;

/// The entries that a lookup in `store` finds: for each key that is present,
/// the value of the snapshot that was last stored under it.
pub uninterp spec fn entries(store: Store) -> Entries;

/// The number of entries that `store` was made to hold at most.
pub uninterp spec fn bound(store: Store) -> u64;

/// Whether `store` has, at some moment since it was made, held more entries
/// than its bound. A map that never has evicts nothing.
pub uninterp spec fn overfull(store: Store) -> bool;

/// Whether `store` has never held more than its bound, so that it holds
/// every entry that was put into it and not removed.
pub open spec fn exact(store: Store) -> bool {
    !overfull(store) && within_bound(entries(store).dom(), bound(store))
}

/// `Cache::new`: a map bounded by `max_capacity` entries, with nothing in it.
#[verifier::external_body]
pub(crate) fn store_new(max_capacity: u64) -> (store: Store)
    ensures
        entries(store) == Entries::empty(),
        bound(store) == max_capacity,
        !overfull(store),
    no_unwind
{
    moka::sync::Cache::new(max_capacity)
}

/// `Cache::get`: a clone of the snapshot stored under `key`, if there is
/// one. The call may run the map's pending maintenance, which adds no entry,
/// and which evicts none from a map that never held more than its bound:
/// moka evicts only to make room, and admits what finds room.
#[verifier::external_body]
pub(crate) fn store_get(store: &mut Store, key: i64) -> (found: Option<Snapshot>)
    ensures
        found is Some ==> hit(entries(*old(store)), entries(*final(store)), key, found->Some_0@),
        found is None ==> missed(entries(*old(store)), entries(*final(store)), key),
        bound(*final(store)) == bound(*old(store)),
        exact(*old(store)) ==> exact(*final(store)) && entries(*final(store)) == entries(
            *old(store),
        ),
    no_unwind
{
    store.get(&key)
}

/// `Cache::insert`: stores a clone of `value` under `key`, in place of what
/// was there. Where the map never held more than its bound and has room for
/// the entry, that is all that happens. Otherwise the map may evict any
/// entry at once, the new one included, and no other entry appears.
#[verifier::external_body]
pub(crate) fn store_insert(store: &mut Store, key: i64, value: &Snapshot)
    ensures
        offered(entries(*old(store)), entries(*final(store)), key, value@),
        bound(*final(store)) == bound(*old(store)),
        exact(*old(store)) && has_room(entries(*old(store)).dom(), key, bound(*old(store)))
            ==> exact(*final(store)) && entries(*final(store)) == entries(*old(store)).insert(
            key,
            value@,
        ),
    no_unwind
{
    store.insert(key, value.clone());
}

/// `Cache::invalidate`: removes the entry under `key`. Where there is none
/// the call returns at once and changes nothing; where there is one,
/// maintenance may run, which evicts nothing from a map that never held more
/// than its bound.
#[verifier::external_body]
pub(crate) fn store_invalidate(store: &mut Store, key: i64)
    ensures
        dropped(entries(*old(store)), entries(*final(store)), key),
        bound(*final(store)) == bound(*old(store)),
        exact(*old(store)) ==> exact(*final(store)) && entries(*final(store)) == entries(
            *old(store),
        ).remove(key),
    no_unwind
{
    store.invalidate(&key);
}

} // verus!
