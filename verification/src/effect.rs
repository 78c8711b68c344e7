//! What one cache operation may do to the entries of a cache, as relations
//! between the entries before and after it.
//!
//! A cache is bounded. As long as it was never asked to hold more than its
//! bound it holds exactly what was put into it; from then on it may evict,
//! and the relations say only which entries can be there afterwards.

use vstd::prelude::*;

verus! {

/// Every entry of `after` is an entry of `before`, with the same value.
pub open spec fn kept<V>(after: Map<i64, V>, before: Map<i64, V>) -> bool {
    forall|key: i64| #[trigger]
        after.contains_key(key) ==> before.contains_key(key) && after[key] == before[key]
}

/// A lookup found `value` under `key`; nothing was added to the cache.
pub open spec fn hit<V>(before: Map<i64, V>, after: Map<i64, V>, key: i64, value: V) -> bool {
    &&& before.contains_key(key)
    &&& before[key] == value
    &&& kept(after, before)
}

/// A lookup found nothing under `key`; nothing was added to the cache.
pub open spec fn missed<V>(before: Map<i64, V>, after: Map<i64, V>, key: i64) -> bool {
    &&& !before.contains_key(key)
    &&& kept(after, before)
}

/// `value` was offered to the cache for `key`: afterwards the cache holds
/// nothing but what it held before and this entry. Whether it holds this
/// entry depends on the room that it had.
pub open spec fn offered<V>(before: Map<i64, V>, after: Map<i64, V>, key: i64, value: V) -> bool {
    kept(after, before.insert(key, value))
}

/// A lookup found nothing under `key`, and `value` was offered for it.
pub open spec fn refilled<V>(before: Map<i64, V>, after: Map<i64, V>, key: i64, value: V) -> bool {
    &&& !before.contains_key(key)
    &&& offered(before, after, key, value)
}

/// The entry under `key` was removed. Where there was none, nothing changed.
pub open spec fn dropped<V>(before: Map<i64, V>, after: Map<i64, V>, key: i64) -> bool {
    &&& !after.contains_key(key)
    &&& kept(after, before)
    &&& !before.contains_key(key) ==> after == before
}

/// The entries of a cache that loses nothing after a read of `key` through
/// it: what it held before, and on a miss the value that was read, if one
/// was.
pub open spec fn read_into<V>(before: Map<i64, V>, key: i64, read: Option<V>) -> Map<i64, V> {
    if !before.contains_key(key) && read is Some {
        before.insert(key, read->Some_0)
    } else {
        before
    }
}

/// Whether a cache with the keys `keys` and the bound `bound` has room for
/// an entry under `key`: the key is among them, or they are fewer than the
/// bound.
pub open spec fn has_room(keys: Set<i64>, key: i64, bound: u64) -> bool {
    keys.finite() && (keys.contains(key) || keys.len() < bound)
}

/// Whether `keys` are no more than `bound`.
pub open spec fn within_bound(keys: Set<i64>, bound: u64) -> bool {
    keys.finite() && keys.len() <= bound
}

} // verus!
