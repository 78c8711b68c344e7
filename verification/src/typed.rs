//! The four cache instances of the service, each with the type of what it
//! holds.

use vstd::prelude::*;
use vstd::pervasive::unreached;
use crate::cache::ResultCache;
use crate::effect::{dropped, has_room, hit, missed, read_into, refilled, within_bound};
use crate::entity::{
    row_of, rows_of, tags_of, LivestreamModel, LivestreamModelView, Tag, TagView, User, UserView,
};
use crate::snapshot::{EntityKind, Snapshot, SnapshotView};
use crate::store::Entries;

verus! {

/// The number of entries that each cache instance holds at most.
pub const MAX_ENTRIES: u64 = 1000;

/// The user in a snapshot of a user.
pub open spec fn user_in(snapshot: SnapshotView) -> UserView {
    snapshot->User_0
}

/// The tags in a snapshot of a tag list.
pub open spec fn tags_in(snapshot: SnapshotView) -> Seq<TagView> {
    snapshot->Tags_0
}

/// The rows in a snapshot of a user's livestreams.
pub open spec fn owned_in(snapshot: SnapshotView) -> Seq<LivestreamModelView> {
    snapshot->OwnedLivestreams_0
}

/// The row, or its absence, in a snapshot of a livestream.
pub open spec fn row_in(snapshot: SnapshotView) -> Option<LivestreamModelView> {
    snapshot->Livestream_0
}

/// The entries of a cache, each read by `pick`.
pub open spec fn read_as<V>(entries: Entries, pick: spec_fn(SnapshotView) -> V) -> Map<i64, V> {
    Map::new(|key: i64| entries.contains_key(key), |key: i64| pick(entries[key]))
}

/// The users of the service, by user id.
pub struct UserCache {
    cache: ResultCache,
}

impl View for UserCache {
    type V = Map<i64, UserView>;

    /// The users that the cache holds.
    closed spec fn view(&self) -> Map<i64, UserView> {
        read_as(self.cache@, |snapshot: SnapshotView| user_in(snapshot))
    }
}

impl UserCache {
    #[verifier::type_invariant]
    spec fn holds_users(self) -> bool {
        self.cache.kind() == EntityKind::User && self.cache.max_entries() == MAX_ENTRIES
    }

    /// Whether the cache has, at some moment since it was made or emptied,
    /// held more entries than its bound.
    pub closed spec fn pressed(&self) -> bool {
        self.cache.pressed()
    }

    /// The number of entries that the cache holds at most.
    pub closed spec fn spec_max_entries(&self) -> u64 {
        self.cache.max_entries()
    }

    /// Whether the cache has never held more than its bound. Such a cache
    /// holds every entry that was read into it and was not invalidated.
    pub open spec fn exact(&self) -> bool {
        !self.pressed() && within_bound(self@.dom(), self.max_entries())
    }

    /// The number of entries that the cache holds at most.
    #[verifier::when_used_as_spec(spec_max_entries)]
    pub fn max_entries(&self) -> (bound: u64)
        ensures
            bound == self.spec_max_entries(),
            bound == MAX_ENTRIES,
    {
        proof {
            use_type_invariant(self);
        }
        self.cache.max_entries()
    }

    /// An empty cache, for at most `MAX_ENTRIES` entries.
    pub fn new() -> (cache: UserCache)
        ensures
            cache@ == Map::<i64, UserView>::empty(),
            cache.max_entries() == MAX_ENTRIES,
            cache.exact(),
    {
        let cache = UserCache { cache: ResultCache::new(EntityKind::User, MAX_ENTRIES) };
        assert(cache@ =~= Map::<i64, UserView>::empty());
        assert(cache@.dom() =~= Set::<i64>::empty());
        cache
    }

    /// The user cached under `key`; on a miss, the user that `populate`
    /// reads for `key`, who is then cached. A failed read is handed on and
    /// nothing is cached for it. A cache that never held more than its bound
    /// loses no entry, and holds what was read if it has room for it.
    pub fn get_or_insert<F, E>(&mut self, key: i64, populate: F) -> (result: Result<User, E>)
        where F: FnOnce(i64) -> Result<User, E>
        requires
            populate.requires((key,)),
        ensures
            old(self)@.contains_key(key) ==> result is Ok && hit(
                old(self)@,
                final(self)@,
                key,
                result->Ok_0@,
            ),
            !old(self)@.contains_key(key) ==> populate.ensures((key,), result),
            !old(self)@.contains_key(key) ==> match result {
                Ok(user) => refilled(old(self)@, final(self)@, key, user@),
                Err(_) => missed(old(self)@, final(self)@, key),
            },
            old(self).exact() && (result is Err || has_room(old(self)@.dom(), key, MAX_ENTRIES))
                ==> final(self).exact() && final(self)@ == read_into(
                old(self)@,
                key,
                match result {
                    Ok(user) => Some(user@),
                    Err(_) => None,
                },
            ),
    {
        proof {
            use_type_invariant(&*self);
            assert(self@.dom() =~= self.cache@.dom());
        }
        let result = match self.cache.lookup(key) {
            Some(Snapshot::User(user)) => Ok(user),
            Some(_) => {
                proof {
                    assert(false);
                }
                unreached()
            },
            None => match populate(key) {
                Ok(user) => {
                    let snapshot = Snapshot::User(user);
                    self.cache.insert(key, &snapshot);
                    match snapshot {
                        Snapshot::User(user) => Ok(user),
                        _ => unreached(),
                    }
                },
                Err(error) => Err(error),
            },
        };
        proof {
            assert(self@.dom() =~= self.cache@.dom());
            if old(self).exact() && (result is Err || has_room(old(self)@.dom(), key, MAX_ENTRIES)) {
                assert(self@ =~= read_into(
                    old(self)@,
                    key,
                    match result {
                        Ok(user) => Some(user@),
                        Err(_) => None,
                    },
                ));
            }
        }
        result
    }

    /// Removes the user cached under `key`. Invalidating a key that is not
    /// cached changes nothing, and no call fails. A cache that never held more
    /// than its bound keeps every other entry.
    pub fn invalidate(&mut self, key: i64)
        ensures
            dropped(old(self)@, final(self)@, key),
            old(self).exact() ==> final(self).exact() && final(self)@ == old(self)@.remove(key),
    {
        proof {
            use_type_invariant(&*self);
            assert(self@.dom() =~= self.cache@.dom());
        }
        self.cache.invalidate(key);
        assert(!old(self)@.contains_key(key) ==> final(self)@ =~= old(self)@);
        assert(self@.dom() =~= self.cache@.dom());
        assert(old(self).exact() ==> self@ =~= old(self)@.remove(key));
    }

    /// Removes every user.
    pub fn invalidate_all(&mut self)
        ensures
            final(self)@ == Map::<i64, UserView>::empty(),
            final(self).exact(),
    {
        proof {
            use_type_invariant(&*self);
        }
        self.cache.invalidate_all();
        assert(self@ =~= Map::<i64, UserView>::empty());
        assert(self@.dom() =~= Set::<i64>::empty());
    }
}

/// The tags of each livestream, by livestream id.
pub struct TagsCache {
    cache: ResultCache,
}

impl View for TagsCache {
    type V = Map<i64, Seq<TagView>>;

    /// The tag lists that the cache holds.
    closed spec fn view(&self) -> Map<i64, Seq<TagView>> {
        read_as(self.cache@, |snapshot: SnapshotView| tags_in(snapshot))
    }
}

impl TagsCache {
    #[verifier::type_invariant]
    spec fn holds_tags(self) -> bool {
        self.cache.kind() == EntityKind::Tags && self.cache.max_entries() == MAX_ENTRIES
    }

    /// Whether the cache has, at some moment since it was made or emptied,
    /// held more entries than its bound.
    pub closed spec fn pressed(&self) -> bool {
        self.cache.pressed()
    }

    /// The number of entries that the cache holds at most.
    pub closed spec fn spec_max_entries(&self) -> u64 {
        self.cache.max_entries()
    }

    /// Whether the cache has never held more than its bound. Such a cache
    /// holds every entry that was read into it and was not invalidated.
    pub open spec fn exact(&self) -> bool {
        !self.pressed() && within_bound(self@.dom(), self.max_entries())
    }

    /// The number of entries that the cache holds at most.
    #[verifier::when_used_as_spec(spec_max_entries)]
    pub fn max_entries(&self) -> (bound: u64)
        ensures
            bound == self.spec_max_entries(),
            bound == MAX_ENTRIES,
    {
        proof {
            use_type_invariant(self);
        }
        self.cache.max_entries()
    }

    /// An empty cache, for at most `MAX_ENTRIES` entries.
    pub fn new() -> (cache: TagsCache)
        ensures
            cache@ == Map::<i64, Seq<TagView>>::empty(),
            cache.max_entries() == MAX_ENTRIES,
            cache.exact(),
    {
        let cache = TagsCache { cache: ResultCache::new(EntityKind::Tags, MAX_ENTRIES) };
        assert(cache@ =~= Map::<i64, Seq<TagView>>::empty());
        assert(cache@.dom() =~= Set::<i64>::empty());
        cache
    }

    /// The tags cached under `key`; on a miss, the tags that `populate`
    /// reads for `key`, which are then cached. A failed read is handed on
    /// and nothing is cached for it. A cache that never held more than its bound
    /// loses no entry, and holds what was read if it has room for it.
    pub fn get_or_insert<F, E>(&mut self, key: i64, populate: F) -> (result: Result<Vec<Tag>, E>)
        where F: FnOnce(i64) -> Result<Vec<Tag>, E>
        requires
            populate.requires((key,)),
        ensures
            old(self)@.contains_key(key) ==> result is Ok && hit(
                old(self)@,
                final(self)@,
                key,
                tags_of(result->Ok_0@),
            ),
            !old(self)@.contains_key(key) ==> populate.ensures((key,), result),
            !old(self)@.contains_key(key) ==> match result {
                Ok(tags) => refilled(old(self)@, final(self)@, key, tags_of(tags@)),
                Err(_) => missed(old(self)@, final(self)@, key),
            },
            old(self).exact() && (result is Err || has_room(old(self)@.dom(), key, MAX_ENTRIES))
                ==> final(self).exact() && final(self)@ == read_into(
                old(self)@,
                key,
                match result {
                    Ok(tags) => Some(tags_of(tags@)),
                    Err(_) => None,
                },
            ),
    {
        proof {
            use_type_invariant(&*self);
            assert(self@.dom() =~= self.cache@.dom());
        }
        let result = match self.cache.lookup(key) {
            Some(Snapshot::Tags(tags)) => Ok(tags),
            Some(_) => {
                proof {
                    assert(false);
                }
                unreached()
            },
            None => match populate(key) {
                Ok(tags) => {
                    let snapshot = Snapshot::Tags(tags);
                    self.cache.insert(key, &snapshot);
                    match snapshot {
                        Snapshot::Tags(tags) => Ok(tags),
                        _ => unreached(),
                    }
                },
                Err(error) => Err(error),
            },
        };
        proof {
            assert(self@.dom() =~= self.cache@.dom());
            if old(self).exact() && (result is Err || has_room(old(self)@.dom(), key, MAX_ENTRIES)) {
                assert(self@ =~= read_into(
                    old(self)@,
                    key,
                    match result {
                        Ok(tags) => Some(tags_of(tags@)),
                        Err(_) => None,
                    },
                ));
            }
        }
        result
    }

    /// Removes the tags cached under `key`. Invalidating a key that is not
    /// cached changes nothing, and no call fails. A cache that never held more
    /// than its bound keeps every other entry.
    pub fn invalidate(&mut self, key: i64)
        ensures
            dropped(old(self)@, final(self)@, key),
            old(self).exact() ==> final(self).exact() && final(self)@ == old(self)@.remove(key),
    {
        proof {
            use_type_invariant(&*self);
            assert(self@.dom() =~= self.cache@.dom());
        }
        self.cache.invalidate(key);
        assert(!old(self)@.contains_key(key) ==> final(self)@ =~= old(self)@);
        assert(self@.dom() =~= self.cache@.dom());
        assert(old(self).exact() ==> self@ =~= old(self)@.remove(key));
    }

    /// Removes every tag list.
    pub fn invalidate_all(&mut self)
        ensures
            final(self)@ == Map::<i64, Seq<TagView>>::empty(),
            final(self).exact(),
    {
        proof {
            use_type_invariant(&*self);
        }
        self.cache.invalidate_all();
        assert(self@ =~= Map::<i64, Seq<TagView>>::empty());
        assert(self@.dom() =~= Set::<i64>::empty());
    }
}

/// The livestreams that each user owns, by user id.
pub struct UserIdToLivestreamsCache {
    cache: ResultCache,
}

impl View for UserIdToLivestreamsCache {
    type V = Map<i64, Seq<LivestreamModelView>>;

    /// The livestream lists that the cache holds.
    closed spec fn view(&self) -> Map<i64, Seq<LivestreamModelView>> {
        read_as(self.cache@, |snapshot: SnapshotView| owned_in(snapshot))
    }
}

impl UserIdToLivestreamsCache {
    #[verifier::type_invariant]
    spec fn holds_owned_livestreams(self) -> bool {
        self.cache.kind() == EntityKind::OwnedLivestreams && self.cache.max_entries() == MAX_ENTRIES
    }

    /// Whether the cache has, at some moment since it was made or emptied,
    /// held more entries than its bound.
    pub closed spec fn pressed(&self) -> bool {
        self.cache.pressed()
    }

    /// The number of entries that the cache holds at most.
    pub closed spec fn spec_max_entries(&self) -> u64 {
        self.cache.max_entries()
    }

    /// Whether the cache has never held more than its bound. Such a cache
    /// holds every entry that was read into it and was not invalidated.
    pub open spec fn exact(&self) -> bool {
        !self.pressed() && within_bound(self@.dom(), self.max_entries())
    }

    /// The number of entries that the cache holds at most.
    #[verifier::when_used_as_spec(spec_max_entries)]
    pub fn max_entries(&self) -> (bound: u64)
        ensures
            bound == self.spec_max_entries(),
            bound == MAX_ENTRIES,
    {
        proof {
            use_type_invariant(self);
        }
        self.cache.max_entries()
    }

    /// An empty cache, for at most `MAX_ENTRIES` entries.
    pub fn new() -> (cache: UserIdToLivestreamsCache)
        ensures
            cache@ == Map::<i64, Seq<LivestreamModelView>>::empty(),
            cache.max_entries() == MAX_ENTRIES,
            cache.exact(),
    {
        let cache = UserIdToLivestreamsCache { cache: ResultCache::new(EntityKind::OwnedLivestreams, MAX_ENTRIES) };
        assert(cache@ =~= Map::<i64, Seq<LivestreamModelView>>::empty());
        assert(cache@.dom() =~= Set::<i64>::empty());
        cache
    }

    /// The livestreams cached under `key`; on a miss, the livestreams that
    /// `populate` reads for `key`, which are then cached. A failed read is
    /// handed on and nothing is cached for it. A cache that never held more than its bound
    /// loses no entry, and holds what was read if it has room for it.
    pub fn get_or_insert<F, E>(&mut self, key: i64, populate: F) -> (result: Result<Vec<LivestreamModel>, E>)
        where F: FnOnce(i64) -> Result<Vec<LivestreamModel>, E>
        requires
            populate.requires((key,)),
        ensures
            old(self)@.contains_key(key) ==> result is Ok && hit(
                old(self)@,
                final(self)@,
                key,
                rows_of(result->Ok_0@),
            ),
            !old(self)@.contains_key(key) ==> populate.ensures((key,), result),
            !old(self)@.contains_key(key) ==> match result {
                Ok(rows) => refilled(old(self)@, final(self)@, key, rows_of(rows@)),
                Err(_) => missed(old(self)@, final(self)@, key),
            },
            old(self).exact() && (result is Err || has_room(old(self)@.dom(), key, MAX_ENTRIES))
                ==> final(self).exact() && final(self)@ == read_into(
                old(self)@,
                key,
                match result {
                    Ok(rows) => Some(rows_of(rows@)),
                    Err(_) => None,
                },
            ),
    {
        proof {
            use_type_invariant(&*self);
            assert(self@.dom() =~= self.cache@.dom());
        }
        let result = match self.cache.lookup(key) {
            Some(Snapshot::OwnedLivestreams(rows)) => Ok(rows),
            Some(_) => {
                proof {
                    assert(false);
                }
                unreached()
            },
            None => match populate(key) {
                Ok(rows) => {
                    let snapshot = Snapshot::OwnedLivestreams(rows);
                    self.cache.insert(key, &snapshot);
                    match snapshot {
                        Snapshot::OwnedLivestreams(rows) => Ok(rows),
                        _ => unreached(),
                    }
                },
                Err(error) => Err(error),
            },
        };
        proof {
            assert(self@.dom() =~= self.cache@.dom());
            if old(self).exact() && (result is Err || has_room(old(self)@.dom(), key, MAX_ENTRIES)) {
                assert(self@ =~= read_into(
                    old(self)@,
                    key,
                    match result {
                        Ok(rows) => Some(rows_of(rows@)),
                        Err(_) => None,
                    },
                ));
            }
        }
        result
    }

    /// Removes the livestreams cached under `key`. Invalidating a key that
    /// is not cached changes nothing, and no call fails. A cache that never held more
    /// than its bound keeps every other entry.
    pub fn invalidate(&mut self, key: i64)
        ensures
            dropped(old(self)@, final(self)@, key),
            old(self).exact() ==> final(self).exact() && final(self)@ == old(self)@.remove(key),
    {
        proof {
            use_type_invariant(&*self);
            assert(self@.dom() =~= self.cache@.dom());
        }
        self.cache.invalidate(key);
        assert(!old(self)@.contains_key(key) ==> final(self)@ =~= old(self)@);
        assert(self@.dom() =~= self.cache@.dom());
        assert(old(self).exact() ==> self@ =~= old(self)@.remove(key));
    }

    /// Removes every livestream list.
    pub fn invalidate_all(&mut self)
        ensures
            final(self)@ == Map::<i64, Seq<LivestreamModelView>>::empty(),
            final(self).exact(),
    {
        proof {
            use_type_invariant(&*self);
        }
        self.cache.invalidate_all();
        assert(self@ =~= Map::<i64, Seq<LivestreamModelView>>::empty());
        assert(self@.dom() =~= Set::<i64>::empty());
    }
}

/// The livestream rows, by livestream id. That a livestream does not exist
/// is cached too.
pub struct LivestreamCache {
    cache: ResultCache,
}

impl View for LivestreamCache {
    type V = Map<i64, Option<LivestreamModelView>>;

    /// The rows that the cache holds.
    closed spec fn view(&self) -> Map<i64, Option<LivestreamModelView>> {
        read_as(self.cache@, |snapshot: SnapshotView| row_in(snapshot))
    }
}

impl LivestreamCache {
    #[verifier::type_invariant]
    spec fn holds_livestreams(self) -> bool {
        self.cache.kind() == EntityKind::Livestream && self.cache.max_entries() == MAX_ENTRIES
    }

    /// Whether the cache has, at some moment since it was made or emptied,
    /// held more entries than its bound.
    pub closed spec fn pressed(&self) -> bool {
        self.cache.pressed()
    }

    /// The number of entries that the cache holds at most.
    pub closed spec fn spec_max_entries(&self) -> u64 {
        self.cache.max_entries()
    }

    /// Whether the cache has never held more than its bound. Such a cache
    /// holds every entry that was read into it and was not invalidated.
    pub open spec fn exact(&self) -> bool {
        !self.pressed() && within_bound(self@.dom(), self.max_entries())
    }

    /// The number of entries that the cache holds at most.
    #[verifier::when_used_as_spec(spec_max_entries)]
    pub fn max_entries(&self) -> (bound: u64)
        ensures
            bound == self.spec_max_entries(),
            bound == MAX_ENTRIES,
    {
        proof {
            use_type_invariant(self);
        }
        self.cache.max_entries()
    }

    /// An empty cache, for at most `MAX_ENTRIES` entries.
    pub fn new() -> (cache: LivestreamCache)
        ensures
            cache@ == Map::<i64, Option<LivestreamModelView>>::empty(),
            cache.max_entries() == MAX_ENTRIES,
            cache.exact(),
    {
        let cache = LivestreamCache { cache: ResultCache::new(EntityKind::Livestream, MAX_ENTRIES) };
        assert(cache@ =~= Map::<i64, Option<LivestreamModelView>>::empty());
        assert(cache@.dom() =~= Set::<i64>::empty());
        cache
    }

    /// The row cached under `key`; on a miss, the row that `populate` reads
    /// for `key`, or its absence, which is then cached. A failed read is
    /// handed on and nothing is cached for it. A cache that never held more than its bound
    /// loses no entry, and holds what was read if it has room for it.
    pub fn get_or_insert<F, E>(&mut self, key: i64, populate: F) -> (result: Result<Option<LivestreamModel>, E>)
        where F: FnOnce(i64) -> Result<Option<LivestreamModel>, E>
        requires
            populate.requires((key,)),
        ensures
            old(self)@.contains_key(key) ==> result is Ok && hit(
                old(self)@,
                final(self)@,
                key,
                row_of(result->Ok_0),
            ),
            !old(self)@.contains_key(key) ==> populate.ensures((key,), result),
            !old(self)@.contains_key(key) ==> match result {
                Ok(row) => refilled(old(self)@, final(self)@, key, row_of(row)),
                Err(_) => missed(old(self)@, final(self)@, key),
            },
            old(self).exact() && (result is Err || has_room(old(self)@.dom(), key, MAX_ENTRIES))
                ==> final(self).exact() && final(self)@ == read_into(
                old(self)@,
                key,
                match result {
                    Ok(row) => Some(row_of(row)),
                    Err(_) => None,
                },
            ),
    {
        proof {
            use_type_invariant(&*self);
            assert(self@.dom() =~= self.cache@.dom());
        }
        let result = match self.cache.lookup(key) {
            Some(Snapshot::Livestream(row)) => Ok(row),
            Some(_) => {
                proof {
                    assert(false);
                }
                unreached()
            },
            None => match populate(key) {
                Ok(row) => {
                    let snapshot = Snapshot::Livestream(row);
                    self.cache.insert(key, &snapshot);
                    match snapshot {
                        Snapshot::Livestream(row) => Ok(row),
                        _ => unreached(),
                    }
                },
                Err(error) => Err(error),
            },
        };
        proof {
            assert(self@.dom() =~= self.cache@.dom());
            if old(self).exact() && (result is Err || has_room(old(self)@.dom(), key, MAX_ENTRIES)) {
                assert(self@ =~= read_into(
                    old(self)@,
                    key,
                    match result {
                        Ok(row) => Some(row_of(row)),
                        Err(_) => None,
                    },
                ));
            }
        }
        result
    }

    /// Removes the row cached under `key`. Invalidating a key that is not
    /// cached changes nothing, and no call fails. A cache that never held more
    /// than its bound keeps every other entry.
    pub fn invalidate(&mut self, key: i64)
        ensures
            dropped(old(self)@, final(self)@, key),
            old(self).exact() ==> final(self).exact() && final(self)@ == old(self)@.remove(key),
    {
        proof {
            use_type_invariant(&*self);
            assert(self@.dom() =~= self.cache@.dom());
        }
        self.cache.invalidate(key);
        assert(!old(self)@.contains_key(key) ==> final(self)@ =~= old(self)@);
        assert(self@.dom() =~= self.cache@.dom());
        assert(old(self).exact() ==> self@ =~= old(self)@.remove(key));
    }

    /// Removes every row.
    pub fn invalidate_all(&mut self)
        ensures
            final(self)@ == Map::<i64, Option<LivestreamModelView>>::empty(),
            final(self).exact(),
    {
        proof {
            use_type_invariant(&*self);
        }
        self.cache.invalidate_all();
        assert(self@ =~= Map::<i64, Option<LivestreamModelView>>::empty());
        assert(self@.dom() =~= Set::<i64>::empty());
    }
}

} // verus!
