//! The generic read-through cache: one bounded map from key to snapshot,
//! made for one kind of entity, filled only on a miss and emptied only by
//! invalidation.

use vstd::prelude::*;
use crate::effect::{dropped, has_room, hit, missed, offered, refilled, within_bound};
use crate::snapshot::{EntityKind, Snapshot, SnapshotView};
use crate::store::{
    bound, entries, overfull, store_get, store_insert, store_invalidate, store_new, Entries, Store,
};

verus! {

/// One cache instance.
pub struct ResultCache {
    kind: EntityKind,
    max_entries: u64,
    store: Store,
}

impl View for ResultCache {
    type V = Entries;

    /// The entries that the cache holds.
    closed spec fn view(&self) -> Entries {
        entries(self.store)
    }
}

impl ResultCache {
    #[verifier::type_invariant]
    spec fn well_kinded(self) -> bool {
        &&& bound(self.store) == self.max_entries
        &&& forall|key: i64| #[trigger]
            entries(self.store).contains_key(key) ==> entries(self.store)[key].kind() == self.kind
    }

    /// Whether the cache has, at some moment since it was made or emptied,
    /// held more entries than its bound.
    pub closed spec fn pressed(&self) -> bool {
        overfull(self.store)
    }

    /// Whether the cache has never held more than its bound. Such a cache
    /// holds every entry that was put into it and was not invalidated.
    pub open spec fn exact(&self) -> bool {
        !self.pressed() && within_bound(self@.dom(), self.max_entries())
    }

    /// The kind of entity that the cache was made for.
    pub closed spec fn spec_kind(&self) -> EntityKind {
        self.kind
    }

    /// The number of entries that the cache was made to hold at most.
    pub closed spec fn spec_max_entries(&self) -> u64 {
        self.max_entries
    }

    /// An empty cache for snapshots of one kind, bounded by `max_entries`.
    pub fn new(kind: EntityKind, max_entries: u64) -> (cache: ResultCache)
        ensures
            cache@ == Entries::empty(),
            cache.spec_kind() == kind,
            cache.spec_max_entries() == max_entries,
            cache.exact(),
        no_unwind
    {
        ResultCache { kind, max_entries, store: store_new(max_entries) }
    }

    /// The kind of entity that the cache was made for.
    #[verifier::when_used_as_spec(spec_kind)]
    pub fn kind(&self) -> (kind: EntityKind)
        ensures
            kind == self.spec_kind(),
    {
        self.kind
    }

    /// The number of entries that the cache was made to hold at most.
    #[verifier::when_used_as_spec(spec_max_entries)]
    pub fn max_entries(&self) -> (bound: u64)
        ensures
            bound == self.spec_max_entries(),
    {
        self.max_entries
    }

    /// The snapshot cached under `key`, if there is one. A cache that never
    /// held more than its bound is left as it was.
    pub(crate) fn lookup(&mut self, key: i64) -> (found: Option<Snapshot>)
        ensures
            final(self).kind() == old(self).kind(),
            final(self).max_entries() == old(self).max_entries(),
            match found {
                Some(snapshot) => hit(old(self)@, final(self)@, key, snapshot@)
                    && snapshot@.kind() == old(self).kind(),
                None => missed(old(self)@, final(self)@, key),
            },
            old(self).exact() ==> final(self).exact() && final(self)@ == old(self)@,
        no_unwind
    {
        proof {
            use_type_invariant(&*self);
        }
        store_get(&mut self.store, key)
    }

    /// Stores a copy of `value` under `key`, in place of what was there: a
    /// cache that never held more than its bound and has room for the entry
    /// holds it afterwards, and all that it held. A snapshot of another kind
    /// than the cache's is not stored.
    pub(crate) fn insert(&mut self, key: i64, value: &Snapshot)
        ensures
            final(self).kind() == old(self).kind(),
            final(self).max_entries() == old(self).max_entries(),
            value@.kind() == old(self).kind() ==> offered(old(self)@, final(self)@, key, value@),
            value@.kind() == old(self).kind() && old(self).exact() && has_room(
                old(self)@.dom(),
                key,
                old(self).max_entries(),
            ) ==> final(self).exact() && final(self)@ == old(self)@.insert(key, value@),
            value@.kind() != old(self).kind() ==> final(self)@ == old(self)@,
            value@.kind() != old(self).kind() ==> final(self).pressed() == old(self).pressed(),
        no_unwind
    {
        proof {
            use_type_invariant(&*self);
        }
        if value.kind() == self.kind {
            store_insert(&mut self.store, key, value);
        }
    }

    /// Removes the entry under `key`. Invalidating a key that is not cached
    /// changes nothing, and no call fails. A cache that never held more than
    /// its bound keeps every other entry.
    pub fn invalidate(&mut self, key: i64)
        ensures
            final(self).kind() == old(self).kind(),
            final(self).max_entries() == old(self).max_entries(),
            dropped(old(self)@, final(self)@, key),
            old(self).exact() ==> final(self).exact() && final(self)@ == old(self)@.remove(key),
        no_unwind
    {
        proof {
            use_type_invariant(&*self);
        }
        store_invalidate(&mut self.store, key);
    }

    /// Removes every entry. The cache is as good as new.
    pub fn invalidate_all(&mut self)
        ensures
            final(self).kind() == old(self).kind(),
            final(self).max_entries() == old(self).max_entries(),
            final(self)@ == Entries::empty(),
            final(self).exact(),
        no_unwind
    {
        // A fresh map, not moka's `invalidate_all`: that one hides entries by
        // their time stamp, and lets through an entry stored within the same
        // reading of the clock.
        self.store = store_new(self.max_entries);
    }

    /// The entries of the cache after a read of `key` through it that
    /// returned `returned`, if the cache loses nothing: what it held, and on
    /// a miss the value that was read, if that is of the cache's kind.
    pub open spec fn after_read(&self, key: i64, returned: Option<SnapshotView>) -> Entries {
        if !self@.contains_key(key) && returned is Some && returned->Some_0.kind()
            == self.kind() {
            self@.insert(key, returned->Some_0)
        } else {
            self@
        }
    }

    /// The snapshot cached under `key`; on a miss, what `populate` reads for
    /// `key`, which is then cached. A failed read is handed on and nothing is
    /// cached for it. A cache that never held more than its bound loses no
    /// entry, and holds the snapshot that was read if it has room for it.
    pub fn get_or_populate<F, E>(&mut self, key: i64, populate: F) -> (result: Result<Snapshot, E>)
        where F: FnOnce(i64) -> Result<Snapshot, E>
        requires
            populate.requires((key,)),
        ensures
            final(self).kind() == old(self).kind(),
            final(self).max_entries() == old(self).max_entries(),
            old(self)@.contains_key(key) ==> result is Ok && hit(
                old(self)@,
                final(self)@,
                key,
                result->Ok_0@,
            ),
            !old(self)@.contains_key(key) ==> populate.ensures((key,), result),
            !old(self)@.contains_key(key) ==> match result {
                Ok(snapshot) => if snapshot@.kind() == old(self).kind() {
                    refilled(old(self)@, final(self)@, key, snapshot@)
                } else {
                    missed(old(self)@, final(self)@, key)
                },
                Err(_) => missed(old(self)@, final(self)@, key),
            },
            old(self).exact() && (result is Err || has_room(
                old(self)@.dom(),
                key,
                old(self).max_entries(),
            )) ==> final(self).exact() && final(self)@ == old(self).after_read(
                key,
                match result {
                    Ok(snapshot) => Some(snapshot@),
                    Err(_) => None,
                },
            ),
    {
        match self.lookup(key) {
            Some(snapshot) => Ok(snapshot),
            None => {
                match populate(key) {
                    Ok(snapshot) => {
                        self.insert(key, &snapshot);
                        Ok(snapshot)
                    },
                    Err(error) => Err(error),
                }
            },
        }
    }
}

} // verus!
