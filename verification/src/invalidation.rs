//! The cache instances of the service as one value, and the invalidations
//! that each write owes them.

use vstd::prelude::*;
use vstd::string::*;
use crate::effect::dropped;
use crate::error::{refusal, Error, ErrorView};
use crate::entity::{LivestreamModelView, TagView, UserView};
use crate::typed::{LivestreamCache, TagsCache, UserCache, UserIdToLivestreamsCache};

verus! {

/// The cache instances of the service. They are made when the service
/// starts and live as long as it does.
pub struct Caches {
    pub user_cache: UserCache,
    pub tags_cache: TagsCache,
    pub user_id_to_livestreams_cache: UserIdToLivestreamsCache,
    pub livestream_cache: LivestreamCache,
}

/// What the cache instances hold.
pub struct CachesView {
    pub users: Map<i64, UserView>,
    pub tags: Map<i64, Seq<TagView>>,
    pub owned_livestreams: Map<i64, Seq<LivestreamModelView>>,
    pub livestreams: Map<i64, Option<LivestreamModelView>>,
}

/// A write that changes what a cached read would return.
#[derive(Clone, Copy, Debug, PartialEq, Eq, Structural)]
pub enum Write {
    /// A reservation was created for the user `owner_id`.
    ReservationCreated { owner_id: i64 },
    /// The icon of the user `user_id` was replaced or deleted.
    IconChanged { user_id: i64 },
    /// The whole data set was initialised anew.
    Reinitialized,
}

impl View for Caches {
    type V = CachesView;

    open spec fn view(&self) -> CachesView {
        CachesView {
            users: self.user_cache@,
            tags: self.tags_cache@,
            owned_livestreams: self.user_id_to_livestreams_cache@,
            livestreams: self.livestream_cache@,
        }
    }
}

impl CachesView {
    /// The caches with nothing in them.
    pub open spec fn empty() -> CachesView {
        CachesView {
            users: Map::empty(),
            tags: Map::empty(),
            owned_livestreams: Map::empty(),
            livestreams: Map::empty(),
        }
    }
}

/// Whether `after` is what `write` leaves of the caches `before`: a new
/// reservation drops its owner's list of livestreams, a changed icon drops
/// its user, a new data set drops everything; what a write does not name it
/// leaves as it was.
pub open spec fn invalidated(before: CachesView, after: CachesView, write: Write) -> bool {
    match write {
        Write::ReservationCreated { owner_id } => {
            &&& dropped(before.owned_livestreams, after.owned_livestreams, owner_id)
            &&& after.users == before.users
            &&& after.tags == before.tags
            &&& after.livestreams == before.livestreams
        },
        Write::IconChanged { user_id } => {
            &&& dropped(before.users, after.users, user_id)
            &&& after.tags == before.tags
            &&& after.owned_livestreams == before.owned_livestreams
            &&& after.livestreams == before.livestreams
        },
        Write::Reinitialized => after == CachesView::empty(),
    }
}

/// The caches `before` without what `write` invalidates.
pub open spec fn without(before: CachesView, write: Write) -> CachesView {
    match write {
        Write::ReservationCreated { owner_id } => CachesView {
            owned_livestreams: before.owned_livestreams.remove(owner_id),
            ..before
        },
        Write::IconChanged { user_id } => CachesView { users: before.users.remove(user_id), ..before },
        Write::Reinitialized => CachesView::empty(),
    }
}

impl Caches {
    /// Whether none of the caches has ever held more than its bound. Such
    /// caches hold every entry that was read into them and not invalidated.
    pub open spec fn exact(&self) -> bool {
        &&& self.user_cache.exact()
        &&& self.tags_cache.exact()
        &&& self.user_id_to_livestreams_cache.exact()
        &&& self.livestream_cache.exact()
    }

    /// The four cache instances, empty.
    pub fn new() -> (caches: Caches)
        ensures
            caches@ == CachesView::empty(),
            caches.exact(),
    {
        Caches {
            user_cache: UserCache::new(),
            tags_cache: TagsCache::new(),
            user_id_to_livestreams_cache: UserIdToLivestreamsCache::new(),
            livestream_cache: LivestreamCache::new(),
        }
    }

    /// The invalidations that `write` owes the caches. They are local and
    /// cannot fail, so a handler issues them whether or not its transaction
    /// commits. Caches that never held more than their bounds lose nothing
    /// but what the write invalidates.
    pub fn invalidate_for(&mut self, write: Write)
        ensures
            invalidated(old(self)@, final(self)@, write),
            old(self).exact() ==> final(self).exact() && final(self)@ == without(old(self)@, write),
            write is Reinitialized ==> final(self).exact(),
    {
        match write {
            Write::ReservationCreated { owner_id } => {
                self.user_id_to_livestreams_cache.invalidate(owner_id);
            },
            Write::IconChanged { user_id } => {
                self.user_cache.invalidate(user_id);
            },
            Write::Reinitialized => {
                self.reset();
            },
        }
    }

    /// The end of an administrative reset, which has loaded the data set
    /// anew: every cache is emptied, whether or not loading succeeded, and a
    /// failure of the loading script is reported with what it printed.
    pub fn initialize(&mut self, succeeded: bool, stdout: &str, stderr: &str) -> (outcome: Result<
        (),
        Error,
    >)
        ensures
            final(self)@ == CachesView::empty(),
            final(self).exact(),
            refusal(outcome) == if succeeded {
                None
            } else {
                Some(
                    ErrorView::InternalServerError(
                        "init.sh failed with stdout="@ + stdout@ + " stderr="@ + stderr@,
                    ),
                )
            },
    {
        self.invalidate_for(Write::Reinitialized);
        if succeeded {
            Ok(())
        } else {
            let mut text = String::from_str("init.sh failed with stdout=");
            text.append(stdout);
            text.append(" stderr=");
            text.append(stderr);
            Err(Error::InternalServerError(text))
        }
    }

    /// Empties every cache instance. The surrounding service calls this
    /// whenever the data set behind the caches is loaded anew.
    pub fn reset(&mut self)
        ensures
            final(self)@ == CachesView::empty(),
            final(self).exact(),
    {
        self.user_cache.invalidate_all();
        self.tags_cache.invalidate_all();
        self.user_id_to_livestreams_cache.invalidate_all();
        self.livestream_cache.invalidate_all();
    }
}

} // verus!
