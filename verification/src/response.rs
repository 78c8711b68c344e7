//! Responses composed from cached reads: a livestream with its owner and
//! its tags, and what is built on livestreams.
//!
//! Each part is read through its cache. A read that is not cached goes to
//! the function that the caller hands in for it, which reads the backing
//! store inside the caller's transaction.

use std::collections::HashMap;
use vstd::prelude::*;
use crate::effect::{has_room, kept, missed, offered, read_into, within_bound};
use crate::entity::{
    duplicate_tags, row_of, tags_of, Livecomment, LivecommentModel, LivecommentReport,
    LivecommentReportModel, Livestream, LivestreamModel, LivestreamModelView, LivestreamView,
    Reaction, ReactionModel, Tag, TagModelWithLivestreamId, TagView, Theme, User, UserModel,
    UserView,
};
use crate::typed::{LivestreamCache, TagsCache, UserCache, MAX_ENTRIES};

verus! {

/// The user that readers see for a row of the user table: the row's public
/// fields, a theme numbered like the user, and the hash of the user's icon,
/// or of the fallback image where the user has uploaded none.
pub fn fill_user_response(
    user_model: UserModel,
    icon_hash: Option<String>,
    default_icon_hash: String,
) -> (user: User)
    ensures
        user == (User {
            id: user_model.id,
            name: user_model.name,
            display_name: user_model.display_name,
            description: user_model.description,
            theme: Theme { id: user_model.id, dark_mode: user_model.dark_mode },
            icon_hash: match icon_hash {
                Some(hash) => hash,
                None => default_icon_hash,
            },
        }),
{
    let icon_hash = match icon_hash {
        Some(hash) => hash,
        None => default_icon_hash,
    };
    User {
        id: user_model.id,
        name: user_model.name,
        display_name: user_model.display_name,
        description: user_model.description,
        theme: Theme { id: user_model.id, dark_mode: user_model.dark_mode },
        icon_hash,
    }
}

/// The tag of one row of the join.
pub open spec fn tag_of(row: TagModelWithLivestreamId) -> Tag {
    Tag { id: row.id, name: row.name }
}

/// The tags that `rows` give the livestream `livestream_id`, in the order of
/// the rows.
pub open spec fn tags_for(rows: Seq<TagModelWithLivestreamId>, livestream_id: i64) -> Seq<Tag> {
    rows.filter(|row: TagModelWithLivestreamId| row.livestream_id == livestream_id).map_values(
        |row: TagModelWithLivestreamId| tag_of(row),
    )
}

/// The rows of the join, grouped by livestream: each livestream that has a
/// row is given its tags, in the order of the rows.
pub fn fill_tags_for_livestreams(models: &Vec<TagModelWithLivestreamId>) -> (tags: HashMap<
    i64,
    Vec<Tag>,
>)
    ensures
        forall|id: i64| #[trigger] tags@.contains_key(id) <==> tags_for(models@, id).len() > 0,
        forall|id: i64| #[trigger] tags@.contains_key(id) ==> tags@[id]@ == tags_for(models@, id),
{
    let mut tags: HashMap<i64, Vec<Tag>> = HashMap::new();
    let mut i: usize = 0;
    assert forall|id: i64| (#[trigger] tags_for(models@.take(0), id)).len() == 0 by {
        models@.take(0).lemma_filter_len(
            |row: TagModelWithLivestreamId| row.livestream_id == id,
        );
    }
    while i < models.len()
        invariant
            i <= models.len(),
            forall|id: i64| #[trigger]
                tags@.contains_key(id) <==> tags_for(models@.take(i as int), id).len() > 0,
            forall|id: i64| #[trigger]
                tags@.contains_key(id) ==> tags@[id]@ == tags_for(models@.take(i as int), id),
        decreases models.len() - i,
    {
        let row = &models[i];
        let tag = Tag { id: row.id, name: row.name.clone() };
        let livestream_id = row.livestream_id;
        let ghost before = tags@;
        proof {
            assert(models@.take(i + 1) =~= models@.take(i as int).push(*row));
            assert forall|id: i64| #[trigger]
                tags_for(models@.take(i + 1), id) == if id == livestream_id {
                    tags_for(models@.take(i as int), id).push(tag)
                } else {
                    tags_for(models@.take(i as int), id)
                } by {
                let wanted = |row: TagModelWithLivestreamId| row.livestream_id == id;
                models@.take(i as int).lemma_filter_push(*row, wanted);
                assert(models@.take(i as int).filter(wanted).push(*row).map_values(
                    |row: TagModelWithLivestreamId| tag_of(row),
                ) =~= models@.take(i as int).filter(wanted).map_values(
                    |row: TagModelWithLivestreamId| tag_of(row),
                ).push(tag));
            }
        }
        let mut group = match tags.remove(&livestream_id) {
            Some(group) => group,
            None => Vec::new(),
        };
        proof {
            if !before.contains_key(livestream_id) {
                assert(tags_for(models@.take(i as int), livestream_id).len() == 0);
                assert(group@ =~= tags_for(models@.take(i as int), livestream_id));
            }
        }
        group.push(tag);
        tags.insert(livestream_id, group);
        i += 1;
    }
    assert(models@.take(models.len() as int) =~= models@);
    tags
}

/// Whether `user` is what a read of `key` through a cache gives: the user
/// that the cache held, or a user that `fetch` reads for `key`.
pub open spec fn cached_or_fetched_user<F, E>(
    cached: Map<i64, UserView>,
    fetch: &F,
    key: i64,
    user: UserView,
) -> bool where F: Fn(i64) -> Result<User, E> {
    ||| cached.contains_key(key) && cached[key] == user
    ||| exists|fetched: User| #[trigger] fetch.ensures((key,), Ok(fetched)) && fetched@ == user
}

/// Whether `tags` is what a read of `key` through a cache gives: the tags
/// that the cache held, or tags that `fetch` reads for `key`.
pub open spec fn cached_or_fetched_tags<F, E>(
    cached: Map<i64, Seq<TagView>>,
    fetch: &F,
    key: i64,
    tags: Seq<TagView>,
) -> bool where F: Fn(i64) -> Result<Vec<Tag>, E> {
    ||| cached.contains_key(key) && cached[key] == tags
    ||| exists|fetched: Vec<Tag>| #[trigger]
        fetch.ensures((key,), Ok(fetched)) && tags_of(fetched@) == tags
}

/// The livestream of a row, with its owner and its tags read through their
/// caches: the cached owner and the cached tags where they are cached, what
/// the store gives where they are not. With both cached nothing fails. A
/// read that fails ends the composition. Caches that never held more than
/// their bounds lose nothing, and hold what was read if they have room.
pub fn fill_livestream_response<F, G, E>(
    livestream_model: LivestreamModel,
    user_cache: &mut UserCache,
    tags_cache: &mut TagsCache,
    fetch_user: &F,
    fetch_tags: &G,
) -> (response: Result<Livestream, E>) where
    F: Fn(i64) -> Result<User, E>,
    G: Fn(i64) -> Result<Vec<Tag>, E>,

    requires
        fetch_user.requires((livestream_model.user_id,)),
        fetch_tags.requires((livestream_model.id,)),
    ensures
        match response {
            Ok(livestream) => {
                &&& livestream@.id == livestream_model@.id
                &&& livestream@.title == livestream_model@.title
                &&& livestream@.description == livestream_model@.description
                &&& livestream@.playlist_url == livestream_model@.playlist_url
                &&& livestream@.thumbnail_url == livestream_model@.thumbnail_url
                &&& livestream@.start_at == livestream_model@.start_at
                &&& livestream@.end_at == livestream_model@.end_at
                &&& cached_or_fetched_user(
                    old(user_cache)@,
                    fetch_user,
                    livestream_model.user_id,
                    livestream@.owner,
                )
                &&& cached_or_fetched_tags(
                    old(tags_cache)@,
                    fetch_tags,
                    livestream_model.id,
                    livestream@.tags,
                )
                &&& offered(
                    old(user_cache)@,
                    final(user_cache)@,
                    livestream_model.user_id,
                    livestream@.owner,
                )
                &&& offered(
                    old(tags_cache)@,
                    final(tags_cache)@,
                    livestream_model.id,
                    livestream@.tags,
                )
            },
            Err(error) => {
                ||| {
                    &&& fetch_user.ensures((livestream_model.user_id,), Err(error))
                    &&& missed(old(user_cache)@, final(user_cache)@, livestream_model.user_id)
                    &&& final(tags_cache)@ == old(tags_cache)@
                }
                ||| {
                    &&& fetch_tags.ensures((livestream_model.id,), Err(error))
                    &&& missed(old(tags_cache)@, final(tags_cache)@, livestream_model.id)
                    &&& exists|owner: UserView|
                        {
                            &&& #[trigger] cached_or_fetched_user(
                                old(user_cache)@,
                                fetch_user,
                                livestream_model.user_id,
                                owner,
                            )
                            &&& offered(
                                old(user_cache)@,
                                final(user_cache)@,
                                livestream_model.user_id,
                                owner,
                            )
                        }
                }
            },
        },
        old(user_cache)@.contains_key(livestream_model.user_id) && old(tags_cache)@.contains_key(
            livestream_model.id,
        ) ==> response is Ok,
        response is Ok && old(user_cache)@.contains_key(livestream_model.user_id)
            ==> response->Ok_0@.owner == old(user_cache)@[livestream_model.user_id],
        response is Ok && old(tags_cache)@.contains_key(livestream_model.id)
            ==> response->Ok_0@.tags == old(tags_cache)@[livestream_model.id],
        old(user_cache).exact() && has_room(
            old(user_cache)@.dom(),
            livestream_model.user_id,
            MAX_ENTRIES,
        ) ==> final(user_cache).exact() && (response is Ok ==> final(user_cache)@ == read_into(
            old(user_cache)@,
            livestream_model.user_id,
            Some(response->Ok_0@.owner),
        )),
        old(tags_cache).exact() && has_room(old(tags_cache)@.dom(), livestream_model.id, MAX_ENTRIES)
            ==> final(tags_cache).exact() && (response is Ok ==> final(tags_cache)@ == read_into(
            old(tags_cache)@,
            livestream_model.id,
            Some(response->Ok_0@.tags),
        )),
{
    let owner = match user_cache.get_or_insert(livestream_model.user_id, fetch_user) {
        Ok(owner) => owner,
        Err(error) => return Err(error),
    };
    assert(cached_or_fetched_user(
        old(user_cache)@,
        fetch_user,
        livestream_model.user_id,
        owner@,
    ));
    let tags = match tags_cache.get_or_insert(livestream_model.id, fetch_tags) {
        Ok(tags) => tags,
        Err(error) => return Err(error),
    };
    Ok(Livestream::from((livestream_model, tags, owner)))
}

/// The tags that a grouping gives the livestream `livestream_id`: none where
/// it names none.
pub open spec fn grouped_tags(tags: Map<i64, Vec<Tag>>, livestream_id: i64) -> Seq<TagView> {
    if tags.contains_key(livestream_id) {
        tags_of(tags[livestream_id]@)
    } else {
        Seq::empty()
    }
}

/// Whether `livestream` is the row `model` with `tags` and an owner read
/// through the user cache.
pub open spec fn composed<F, E>(
    livestream: Livestream,
    model: LivestreamModel,
    tags: Map<i64, Vec<Tag>>,
    cached: Map<i64, UserView>,
    fetch_user: &F,
) -> bool where F: Fn(i64) -> Result<User, E> {
    &&& livestream@.id == model@.id
    &&& livestream@.title == model@.title
    &&& livestream@.description == model@.description
    &&& livestream@.playlist_url == model@.playlist_url
    &&& livestream@.thumbnail_url == model@.thumbnail_url
    &&& livestream@.start_at == model@.start_at
    &&& livestream@.end_at == model@.end_at
    &&& livestream@.tags == grouped_tags(tags, model.id)
    &&& cached_or_fetched_user(cached, fetch_user, model.user_id, livestream@.owner)
}

/// Whether the owner of each of `models` is cached.
pub open spec fn owners_cached(models: Seq<LivestreamModel>, cached: Map<i64, UserView>) -> bool {
    forall|i: int| 0 <= i < models.len() ==> cached.contains_key(#[trigger] models[i].user_id)
}

/// Whether a user cache that never held more than its bound has room for the
/// owner of each of `models`.
pub open spec fn room_for_owners(models: Seq<LivestreamModel>, cache: &UserCache) -> bool {
    cache.exact() && cache@.dom().len() + models.len() <= MAX_ENTRIES
}

/// Whether each of `livestreams` whose owner was cached shows the cached
/// owner.
pub open spec fn shows_cached_owners(
    livestreams: Seq<Livestream>,
    models: Seq<LivestreamModel>,
    cached: Map<i64, UserView>,
) -> bool {
    &&& livestreams.len() == models.len()
    &&& forall|i: int|
        0 <= i < livestreams.len() && cached.contains_key(models[i].user_id) ==> (
        #[trigger] livestreams[i])@.owner == cached[models[i].user_id]
}

/// Whether reading the owner of one of `models` fails with `error`.
pub open spec fn owner_read_fails<F, E>(
    models: Seq<LivestreamModel>,
    fetch_user: &F,
    error: E,
) -> bool where F: Fn(i64) -> Result<User, E> {
    exists|i: int|
        0 <= i < models.len() && #[trigger] fetch_user.ensures((models[i].user_id,), Err(error))
}

/// The livestreams of a list of rows, in the order of the rows, each with
/// the tags that `tag_map` gives it and with its owner read through the user
/// cache. The first read that fails ends the composition. With a user cache
/// that never held more than its bound, nothing fails where every owner is
/// cached; and where the cache has room for the owners of all the rows, it
/// loses nothing and every cached owner is the owner shown.
pub fn fill_livestream_responses<F, E>(
    livestream_models: Vec<LivestreamModel>,
    tag_map: &HashMap<i64, Vec<Tag>>,
    user_cache: &mut UserCache,
    fetch_user: &F,
) -> (response: Result<Vec<Livestream>, E>) where F: Fn(i64) -> Result<User, E>
    requires
        forall|i: int|
            0 <= i < livestream_models.len() ==> fetch_user.requires(
                (#[trigger] livestream_models[i].user_id,),
            ),
    ensures
        match response {
            Ok(livestreams) => {
                &&& livestreams.len() == livestream_models.len()
                &&& forall|i: int|
                    0 <= i < livestreams.len() ==> composed(
                        #[trigger] livestreams[i],
                        livestream_models[i],
                        tag_map@,
                        old(user_cache)@,
                        fetch_user,
                    )
            },
            Err(error) => owner_read_fails(livestream_models@, fetch_user, error),
        },
        forall|key: i64| #[trigger]
            final(user_cache)@.contains_key(key) ==> cached_or_fetched_user(
                old(user_cache)@,
                fetch_user,
                key,
                final(user_cache)@[key],
            ),
        owners_cached(livestream_models@, old(user_cache)@) && old(user_cache).exact() ==> {
            &&& response is Ok
            &&& final(user_cache).exact()
            &&& final(user_cache)@ == old(user_cache)@
        },
        room_for_owners(livestream_models@, old(user_cache)) ==> {
            &&& final(user_cache).exact()
            &&& kept(old(user_cache)@, final(user_cache)@)
            &&& response is Ok ==> shows_cached_owners(
                response->Ok_0@,
                livestream_models@,
                old(user_cache)@,
            )
        },
{
    let mut res: Vec<Livestream> = Vec::new();
    let ghost models = livestream_models@;
    for model in iter: livestream_models.into_iter()
        invariant
            iter.seq() == models,
            models == livestream_models@,
            res.len() == iter.index(),
            forall|i: int|
                0 <= i < models.len() ==> fetch_user.requires((#[trigger] models[i].user_id,)),
            forall|i: int|
                0 <= i < res.len() ==> composed(
                    #[trigger] res[i],
                    models[i],
                    tag_map@,
                    old(user_cache)@,
                    fetch_user,
                ),
            forall|key: i64| #[trigger]
                user_cache@.contains_key(key) ==> cached_or_fetched_user(
                    old(user_cache)@,
                    fetch_user,
                    key,
                    user_cache@[key],
                ),
            owners_cached(models, old(user_cache)@) && old(user_cache).exact()
                ==> user_cache.exact() && user_cache@ == old(user_cache)@,
            room_for_owners(models, old(user_cache)) ==> {
                &&& user_cache.exact()
                &&& kept(old(user_cache)@, user_cache@)
                &&& user_cache@.dom().len() <= old(user_cache)@.dom().len() + iter.index()
                &&& shows_cached_owners(res@, models.take(iter.index()), old(user_cache)@)
            },
    {
        let ghost at = iter.index();
        let ghost cached = user_cache@;
        assert(0 <= at < models.len() && model == models[at]);
        let owner = match user_cache.get_or_insert(model.user_id, fetch_user) {
            Ok(owner) => owner,
            Err(error) => {
                assert(fetch_user.ensures((models[at].user_id,), Err(error)));
                return Err(error);
            },
        };
        assert(cached_or_fetched_user(old(user_cache)@, fetch_user, model.user_id, owner@));
        let tags = match tag_map.get(&model.id) {
            Some(tags) => duplicate_tags(tags),
            None => Vec::new(),
        };
        assert(tags_of(tags@) =~= grouped_tags(tag_map@, model.id));
        res.push(Livestream::from((model, tags, owner)));
        proof {
            assert(models.take(at + 1) =~= models.take(at).push(models[at]));
            if room_for_owners(models, old(user_cache)) {
                assert(user_cache@ == read_into(cached, models[at].user_id, Some(owner@)));
            }
        }
    }
    proof {
        assert(models.take(models.len() as int) =~= models);
    }
    Ok(res)
}

/// Why a response could not be composed.
#[derive(Clone, Debug, PartialEq, Eq)]
pub enum FillError<E> {
    /// A row that the response needs does not exist.
    RowNotFound,
    /// A read of the backing store failed.
    Store(E),
}

/// Whether `row` is what a read of `key` through a cache gives: the row, or
/// its absence, that the cache held, or what `fetch` reads for `key`.
pub open spec fn cached_or_fetched_row<H, E>(
    cached: Map<i64, Option<LivestreamModelView>>,
    fetch: &H,
    key: i64,
    row: Option<LivestreamModelView>,
) -> bool where H: Fn(i64) -> Result<Option<LivestreamModel>, E> {
    ||| cached.contains_key(key) && cached[key] == row
    ||| exists|fetched: Option<LivestreamModel>| #[trigger]
        fetch.ensures((key,), Ok(fetched)) && row_of(fetched) == row
}

/// Whether every user in `after` was in `before` or was read by `fetch`.
pub open spec fn users_cached_or_fetched<F, E>(
    before: Map<i64, UserView>,
    after: Map<i64, UserView>,
    fetch: &F,
) -> bool where F: Fn(i64) -> Result<User, E> {
    forall|key: i64| #[trigger]
        after.contains_key(key) ==> cached_or_fetched_user(before, fetch, key, after[key])
}

/// Whether every tag list in `after` was in `before` or was read by `fetch`.
pub open spec fn tags_cached_or_fetched<G, E>(
    before: Map<i64, Seq<TagView>>,
    after: Map<i64, Seq<TagView>>,
    fetch: &G,
) -> bool where G: Fn(i64) -> Result<Vec<Tag>, E> {
    forall|key: i64| #[trigger]
        after.contains_key(key) ==> cached_or_fetched_tags(before, fetch, key, after[key])
}

/// Whether every row in `after` was in `before` or was read by `fetch`.
pub open spec fn rows_cached_or_fetched<H, E>(
    before: Map<i64, Option<LivestreamModelView>>,
    after: Map<i64, Option<LivestreamModelView>>,
    fetch: &H,
) -> bool where H: Fn(i64) -> Result<Option<LivestreamModel>, E> {
    forall|key: i64| #[trigger]
        after.contains_key(key) ==> cached_or_fetched_row(before, fetch, key, after[key])
}

/// Whether `livestream` is the row `row` with an owner and tags that were
/// cached or fetched.
pub open spec fn livestream_read<F, G, E>(
    livestream: LivestreamView,
    row: LivestreamModelView,
    users: Map<i64, UserView>,
    tags: Map<i64, Seq<TagView>>,
    fetch_user: &F,
    fetch_tags: &G,
) -> bool where F: Fn(i64) -> Result<User, E>, G: Fn(i64) -> Result<Vec<Tag>, E> {
    &&& livestream.id == row.id
    &&& livestream.title == row.title
    &&& livestream.description == row.description
    &&& livestream.playlist_url == row.playlist_url
    &&& livestream.thumbnail_url == row.thumbnail_url
    &&& livestream.start_at == row.start_at
    &&& livestream.end_at == row.end_at
    &&& cached_or_fetched_user(users, fetch_user, row.user_id, livestream.owner)
    &&& cached_or_fetched_tags(tags, fetch_tags, row.id, livestream.tags)
}

/// Whether `livestream` is the livestream `livestream_id` as the caches and
/// the backing store give it: a row that was cached or fetched, with an
/// owner and tags that were cached or fetched.
pub open spec fn livestream_found<F, G, H, E>(
    livestream: LivestreamView,
    livestream_id: i64,
    users: Map<i64, UserView>,
    tags: Map<i64, Seq<TagView>>,
    rows: Map<i64, Option<LivestreamModelView>>,
    fetch_user: &F,
    fetch_tags: &G,
    fetch_livestream: &H,
) -> bool where
    F: Fn(i64) -> Result<User, E>,
    G: Fn(i64) -> Result<Vec<Tag>, E>,
    H: Fn(i64) -> Result<Option<LivestreamModel>, E>,
 {
    exists|row: LivestreamModelView|
        {
            &&& #[trigger] cached_or_fetched_row(rows, fetch_livestream, livestream_id, Some(row))
            &&& livestream_read(livestream, row, users, tags, fetch_user, fetch_tags)
        }
}

/// Whether one of the reads that compose a livestream can fail with `error`.
pub open spec fn livestream_read_fails<F, G, H, E>(
    error: E,
    fetch_user: &F,
    fetch_tags: &G,
    fetch_livestream: &H,
) -> bool where
    F: Fn(i64) -> Result<User, E>,
    G: Fn(i64) -> Result<Vec<Tag>, E>,
    H: Fn(i64) -> Result<Option<LivestreamModel>, E>,
 {
    ||| exists|key: i64| #[trigger] fetch_user.ensures((key,), Err(error))
    ||| exists|key: i64| #[trigger] fetch_tags.ensures((key,), Err(error))
    ||| exists|key: i64| #[trigger] fetch_livestream.ensures((key,), Err(error))
}

/// Whether caches that never held more than their bounds are as they were
/// after a read for which all that it needed was cached.
pub open spec fn all_cached_reads_leave(
    all_cached: bool,
    users_before: &UserCache,
    users_after: &UserCache,
    tags_before: &TagsCache,
    tags_after: &TagsCache,
    rows_before: &LivestreamCache,
    rows_after: &LivestreamCache,
) -> bool {
    &&& all_cached && users_before.exact() ==> users_after.exact() && users_after@
        == users_before@
    &&& all_cached && tags_before.exact() ==> tags_after.exact() && tags_after@ == tags_before@
    &&& all_cached && rows_before.exact() ==> rows_after.exact() && rows_after@ == rows_before@
}

/// Whether the livestream `livestream_id` does not exist, as a read through
/// the cache finds it: the cache says so where it holds the key, the store
/// where it does not.
pub open spec fn row_missing<H, E>(
    rows: Map<i64, Option<LivestreamModelView>>,
    fetch: &H,
    livestream_id: i64,
) -> bool where H: Fn(i64) -> Result<Option<LivestreamModel>, E> {
    if rows.contains_key(livestream_id) {
        rows[livestream_id] is None
    } else {
        fetch.ensures((livestream_id,), Ok(None))
    }
}

/// The livestream `livestream_id` as the caches alone give it: its cached
/// row with the cached owner and the cached tags of that row. `None` where
/// one of the three is not cached, or the cache holds that there is no such
/// livestream.
pub open spec fn cached_livestream(
    livestream_id: i64,
    users: Map<i64, UserView>,
    tags: Map<i64, Seq<TagView>>,
    rows: Map<i64, Option<LivestreamModelView>>,
) -> Option<LivestreamView> {
    if rows.contains_key(livestream_id) && rows[livestream_id] is Some && users.contains_key(
        rows[livestream_id]->Some_0.user_id,
    ) && tags.contains_key(rows[livestream_id]->Some_0.id) {
        let row = rows[livestream_id]->Some_0;
        Some(
            LivestreamView {
                id: row.id,
                owner: users[row.user_id],
                title: row.title,
                description: row.description,
                playlist_url: row.playlist_url,
                thumbnail_url: row.thumbnail_url,
                tags: tags[row.id],
                start_at: row.start_at,
                end_at: row.end_at,
            },
        )
    } else {
        None
    }
}

/// The livestream `livestream_id`, composed from cached reads: its row, then
/// its owner and its tags. Where all three are cached the livestream is
/// theirs and nothing fails; a cached part is never read from the store. A
/// livestream that does not exist, by the cache or else by the store, is
/// reported as a missing row. Caches that never held more than their bounds
/// are left as they were where all three parts are cached.
pub fn find_livestream<F, G, H, E>(
    livestream_id: i64,
    user_cache: &mut UserCache,
    tags_cache: &mut TagsCache,
    livestream_cache: &mut LivestreamCache,
    fetch_user: &F,
    fetch_tags: &G,
    fetch_livestream: &H,
) -> (response: Result<Livestream, FillError<E>>) where
    F: Fn(i64) -> Result<User, E>,
    G: Fn(i64) -> Result<Vec<Tag>, E>,
    H: Fn(i64) -> Result<Option<LivestreamModel>, E>,

    requires
        forall|key: i64| #[trigger] fetch_user.requires((key,)),
        forall|key: i64| #[trigger] fetch_tags.requires((key,)),
        forall|key: i64| #[trigger] fetch_livestream.requires((key,)),
    ensures
        users_cached_or_fetched(old(user_cache)@, final(user_cache)@, fetch_user),
        tags_cached_or_fetched(old(tags_cache)@, final(tags_cache)@, fetch_tags),
        rows_cached_or_fetched(old(livestream_cache)@, final(livestream_cache)@, fetch_livestream),
        match response {
            Ok(livestream) => livestream_found(
                livestream@,
                livestream_id,
                old(user_cache)@,
                old(tags_cache)@,
                old(livestream_cache)@,
                fetch_user,
                fetch_tags,
                fetch_livestream,
            ),
            Err(FillError::RowNotFound) => row_missing(
                old(livestream_cache)@,
                fetch_livestream,
                livestream_id,
            ),
            Err(FillError::Store(error)) => livestream_read_fails(
                error,
                fetch_user,
                fetch_tags,
                fetch_livestream,
            ),
        },
        old(livestream_cache)@.contains_key(livestream_id) && old(
            livestream_cache,
        )@[livestream_id] is None ==> response matches Err(FillError::RowNotFound),
        cached_livestream(
            livestream_id,
            old(user_cache)@,
            old(tags_cache)@,
            old(livestream_cache)@,
        ) matches Some(livestream) ==> response is Ok && response->Ok_0@ == livestream,
        all_cached_reads_leave(
            cached_livestream(
                livestream_id,
                old(user_cache)@,
                old(tags_cache)@,
                old(livestream_cache)@,
            ) is Some,
            old(user_cache),
            final(user_cache),
            old(tags_cache),
            final(tags_cache),
            old(livestream_cache),
            final(livestream_cache),
        ),
{
    let row = match livestream_cache.get_or_insert(livestream_id, fetch_livestream) {
        Ok(row) => row,
        Err(error) => {
            return Err(FillError::Store(error));
        },
    };
    assert(cached_or_fetched_row(
        old(livestream_cache)@,
        fetch_livestream,
        livestream_id,
        row_of(row),
    ));
    let livestream_model = match row {
        Some(livestream_model) => livestream_model,
        None => {
            return Err(FillError::RowNotFound);
        },
    };
    let ghost found = livestream_model@;
    match fill_livestream_response(livestream_model, user_cache, tags_cache, fetch_user, fetch_tags) {
        Ok(livestream) => {
            assert(livestream_read(
                livestream@,
                found,
                old(user_cache)@,
                old(tags_cache)@,
                fetch_user,
                fetch_tags,
            ));
            Ok(livestream)
        },
        Err(error) => Err(FillError::Store(error)),
    }
}

/// Whether `livecomment` is the row `model` with an author that was cached
/// or fetched and with its livestream as the caches and the backing store
/// give it.
pub open spec fn livecomment_read<F, G, H, E>(
    livecomment: Livecomment,
    model: LivecommentModel,
    users: Map<i64, UserView>,
    tags: Map<i64, Seq<TagView>>,
    rows: Map<i64, Option<LivestreamModelView>>,
    fetch_user: &F,
    fetch_tags: &G,
    fetch_livestream: &H,
) -> bool where
    F: Fn(i64) -> Result<User, E>,
    G: Fn(i64) -> Result<Vec<Tag>, E>,
    H: Fn(i64) -> Result<Option<LivestreamModel>, E>,
 {
    &&& livecomment.id == model.id
    &&& livecomment.comment == model.comment
    &&& livecomment.tip == model.tip
    &&& livecomment.created_at == model.created_at
    &&& cached_or_fetched_user(users, fetch_user, model.user_id, livecomment.user@)
    &&& livestream_found(
        livecomment.livestream@,
        model.livestream_id,
        users,
        tags,
        rows,
        fetch_user,
        fetch_tags,
        fetch_livestream,
    )
}

/// The livecomment of a row: the row's own fields, its author read through
/// the user cache, and the livestream that it was posted to, composed from
/// cached reads. A cached author is the author; with a user cache that never
/// held more than its bound and with everything cached, nothing fails, the
/// livestream is the cached one and the caches are left as they were. A
/// livestream that does not exist is reported as a missing row.
pub fn fill_livecomment_response<F, G, H, E>(
    livecomment_model: LivecommentModel,
    user_cache: &mut UserCache,
    tags_cache: &mut TagsCache,
    livestream_cache: &mut LivestreamCache,
    fetch_user: &F,
    fetch_tags: &G,
    fetch_livestream: &H,
) -> (response: Result<Livecomment, FillError<E>>) where
    F: Fn(i64) -> Result<User, E>,
    G: Fn(i64) -> Result<Vec<Tag>, E>,
    H: Fn(i64) -> Result<Option<LivestreamModel>, E>,

    requires
        forall|key: i64| #[trigger] fetch_user.requires((key,)),
        forall|key: i64| #[trigger] fetch_tags.requires((key,)),
        forall|key: i64| #[trigger] fetch_livestream.requires((key,)),
    ensures
        users_cached_or_fetched(old(user_cache)@, final(user_cache)@, fetch_user),
        tags_cached_or_fetched(old(tags_cache)@, final(tags_cache)@, fetch_tags),
        rows_cached_or_fetched(old(livestream_cache)@, final(livestream_cache)@, fetch_livestream),
        match response {
            Ok(livecomment) => livecomment_read(
                livecomment,
                livecomment_model,
                old(user_cache)@,
                old(tags_cache)@,
                old(livestream_cache)@,
                fetch_user,
                fetch_tags,
                fetch_livestream,
            ),
            Err(FillError::RowNotFound) => row_missing(
                old(livestream_cache)@,
                fetch_livestream,
                livecomment_model.livestream_id,
            ),
            Err(FillError::Store(error)) => livestream_read_fails(
                error,
                fetch_user,
                fetch_tags,
                fetch_livestream,
            ),
        },
        response is Ok && old(user_cache)@.contains_key(livecomment_model.user_id)
            ==> response->Ok_0.user@ == old(user_cache)@[livecomment_model.user_id],
        old(user_cache)@.contains_key(livecomment_model.user_id) && old(
            livestream_cache,
        )@.contains_key(livecomment_model.livestream_id) && old(
            livestream_cache,
        )@[livecomment_model.livestream_id] is None ==> response matches Err(
            FillError::RowNotFound,
        ),
        cached_livestream(
            livecomment_model.livestream_id,
            old(user_cache)@,
            old(tags_cache)@,
            old(livestream_cache)@,
        ) matches Some(livestream) ==> (old(user_cache).exact() && old(user_cache)@.contains_key(
            livecomment_model.user_id,
        ) ==> response is Ok && response->Ok_0.livestream@ == livestream),
        all_cached_reads_leave(
            old(user_cache).exact() && old(user_cache)@.contains_key(livecomment_model.user_id)
                && cached_livestream(
                livecomment_model.livestream_id,
                old(user_cache)@,
                old(tags_cache)@,
                old(livestream_cache)@,
            ) is Some,
            old(user_cache),
            final(user_cache),
            old(tags_cache),
            final(tags_cache),
            old(livestream_cache),
            final(livestream_cache),
        ),
{
    let comment_owner = match user_cache.get_or_insert(livecomment_model.user_id, fetch_user) {
        Ok(user) => user,
        Err(error) => {
            return Err(FillError::Store(error));
        },
    };
    assert(cached_or_fetched_user(
        old(user_cache)@,
        fetch_user,
        livecomment_model.user_id,
        comment_owner@,
    ));
    let ghost users = user_cache@;
    assert(users_cached_or_fetched(old(user_cache)@, users, fetch_user));
    let livestream = match find_livestream(
        livecomment_model.livestream_id,
        user_cache,
        tags_cache,
        livestream_cache,
        fetch_user,
        fetch_tags,
        fetch_livestream,
    ) {
        Ok(livestream) => livestream,
        Err(reason) => {
            proof {
                lemma_users_cached_or_fetched_twice(
                    old(user_cache)@,
                    users,
                    user_cache@,
                    fetch_user,
                );
            }
            return Err(reason);
        },
    };
    proof {
        lemma_users_cached_or_fetched_twice(old(user_cache)@, users, user_cache@, fetch_user);
        lemma_livestream_found_later(
            livestream@,
            livecomment_model.livestream_id,
            old(user_cache)@,
            users,
            old(tags_cache)@,
            old(livestream_cache)@,
            fetch_user,
            fetch_tags,
            fetch_livestream,
        );
    }
    Ok(
        Livecomment {
            id: livecomment_model.id,
            user: comment_owner,
            livestream,
            comment: livecomment_model.comment,
            tip: livecomment_model.tip,
            created_at: livecomment_model.created_at,
        },
    )
}

/// What was cached or fetched since a state that was itself cached or
/// fetched was cached or fetched from the start.
pub proof fn lemma_users_cached_or_fetched_twice<F, E>(
    first: Map<i64, UserView>,
    second: Map<i64, UserView>,
    third: Map<i64, UserView>,
    fetch: &F,
) where F: Fn(i64) -> Result<User, E>
    requires
        users_cached_or_fetched(first, second, fetch),
        users_cached_or_fetched(second, third, fetch),
    ensures
        users_cached_or_fetched(first, third, fetch),
{
    assert forall|key: i64| #[trigger] third.contains_key(key) implies cached_or_fetched_user(
        first,
        fetch,
        key,
        third[key],
    ) by {
        assert(cached_or_fetched_user(second, fetch, key, third[key]));
        if second.contains_key(key) && second[key] == third[key] {
            assert(cached_or_fetched_user(first, fetch, key, second[key]));
        }
    }
}

/// A livestream that was found with a user cache that was itself cached or
/// fetched was found with the user cache from the start.
pub proof fn lemma_livestream_found_later<F, G, H, E>(
    livestream: LivestreamView,
    livestream_id: i64,
    first: Map<i64, UserView>,
    second: Map<i64, UserView>,
    tags: Map<i64, Seq<TagView>>,
    rows: Map<i64, Option<LivestreamModelView>>,
    fetch_user: &F,
    fetch_tags: &G,
    fetch_livestream: &H,
) where
    F: Fn(i64) -> Result<User, E>,
    G: Fn(i64) -> Result<Vec<Tag>, E>,
    H: Fn(i64) -> Result<Option<LivestreamModel>, E>,

    requires
        users_cached_or_fetched(first, second, fetch_user),
        livestream_found(
            livestream,
            livestream_id,
            second,
            tags,
            rows,
            fetch_user,
            fetch_tags,
            fetch_livestream,
        ),
    ensures
        livestream_found(
            livestream,
            livestream_id,
            first,
            tags,
            rows,
            fetch_user,
            fetch_tags,
            fetch_livestream,
        ),
{
    let row = choose|row: LivestreamModelView|
        {
            &&& #[trigger] cached_or_fetched_row(rows, fetch_livestream, livestream_id, Some(row))
            &&& livestream_read(livestream, row, second, tags, fetch_user, fetch_tags)
        };
    if second.contains_key(row.user_id) && second[row.user_id] == livestream.owner {
        assert(cached_or_fetched_user(first, fetch_user, row.user_id, second[row.user_id]));
    }
    assert(livestream_read(livestream, row, first, tags, fetch_user, fetch_tags));
}

/// Whether `report` is the row `model` with a reporter that was cached or
/// fetched and with the livecomment that `fetch_livecomment` reads for it.
pub open spec fn report_read<F, G, H, J, E>(
    report: LivecommentReport,
    model: LivecommentReportModel,
    users: Map<i64, UserView>,
    tags: Map<i64, Seq<TagView>>,
    rows: Map<i64, Option<LivestreamModelView>>,
    fetch_user: &F,
    fetch_tags: &G,
    fetch_livestream: &H,
    fetch_livecomment: &J,
) -> bool where
    F: Fn(i64) -> Result<User, E>,
    G: Fn(i64) -> Result<Vec<Tag>, E>,
    H: Fn(i64) -> Result<Option<LivestreamModel>, E>,
    J: Fn(i64) -> Result<Option<LivecommentModel>, E>,
 {
    &&& report.id == model.id
    &&& report.created_at == model.created_at
    &&& cached_or_fetched_user(users, fetch_user, model.user_id, report.reporter@)
    &&& exists|livecomment_model: LivecommentModel|
        {
            &&& #[trigger] fetch_livecomment.ensures(
                (model.livecomment_id,),
                Ok(Some(livecomment_model)),
            )
            &&& livecomment_read(
                report.livecomment,
                livecomment_model,
                users,
                tags,
                rows,
                fetch_user,
                fetch_tags,
                fetch_livestream,
            )
        }
}

/// A livecomment that was read with a user cache that was itself cached or
/// fetched was read with the user cache from the start.
pub proof fn lemma_livecomment_read_later<F, G, H, E>(
    livecomment: Livecomment,
    model: LivecommentModel,
    first: Map<i64, UserView>,
    second: Map<i64, UserView>,
    tags: Map<i64, Seq<TagView>>,
    rows: Map<i64, Option<LivestreamModelView>>,
    fetch_user: &F,
    fetch_tags: &G,
    fetch_livestream: &H,
) where
    F: Fn(i64) -> Result<User, E>,
    G: Fn(i64) -> Result<Vec<Tag>, E>,
    H: Fn(i64) -> Result<Option<LivestreamModel>, E>,

    requires
        users_cached_or_fetched(first, second, fetch_user),
        livecomment_read(
            livecomment,
            model,
            second,
            tags,
            rows,
            fetch_user,
            fetch_tags,
            fetch_livestream,
        ),
    ensures
        livecomment_read(
            livecomment,
            model,
            first,
            tags,
            rows,
            fetch_user,
            fetch_tags,
            fetch_livestream,
        ),
{
    lemma_livestream_found_later(
        livecomment.livestream@,
        model.livestream_id,
        first,
        second,
        tags,
        rows,
        fetch_user,
        fetch_tags,
        fetch_livestream,
    );
    if second.contains_key(model.user_id) && second[model.user_id] == livecomment.user@ {
        assert(cached_or_fetched_user(first, fetch_user, model.user_id, second[model.user_id]));
    }
}

/// Whether the livecomment of `report` is one that the store gives for
/// `livecomment_id`, shown with its cached author where the author is
/// cached, and with its cached livestream where author and livestream are.
pub open spec fn report_shows_cached<J, E>(
    report: LivecommentReport,
    livecomment_id: i64,
    users: Map<i64, UserView>,
    tags: Map<i64, Seq<TagView>>,
    rows: Map<i64, Option<LivestreamModelView>>,
    fetch_livecomment: &J,
) -> bool where J: Fn(i64) -> Result<Option<LivecommentModel>, E> {
    exists|livecomment_model: LivecommentModel|
        {
            &&& #[trigger] fetch_livecomment.ensures((livecomment_id,), Ok(Some(livecomment_model)))
            &&& users.contains_key(livecomment_model.user_id) ==> report.livecomment.user@
                == users[livecomment_model.user_id]
            &&& users.contains_key(livecomment_model.user_id) && cached_livestream(
                livecomment_model.livestream_id,
                users,
                tags,
                rows,
            ) is Some ==> Some(report.livecomment.livestream@) == cached_livestream(
                livecomment_model.livestream_id,
                users,
                tags,
                rows,
            )
        }
}

/// Whether a row that the report on the livecomment `livecomment_id` needs
/// does not exist: the livecomment, by the store, or the livestream of the
/// livecomment that the store gives, by the cache or else by the store.
pub open spec fn report_row_missing<H, J, E>(
    livecomment_id: i64,
    rows: Map<i64, Option<LivestreamModelView>>,
    fetch_livestream: &H,
    fetch_livecomment: &J,
) -> bool where
    H: Fn(i64) -> Result<Option<LivestreamModel>, E>,
    J: Fn(i64) -> Result<Option<LivecommentModel>, E>,
 {
    ||| fetch_livecomment.ensures((livecomment_id,), Ok(None))
    ||| exists|livecomment_model: LivecommentModel|
        {
            &&& #[trigger] fetch_livecomment.ensures((livecomment_id,), Ok(Some(livecomment_model)))
            &&& row_missing(rows, fetch_livestream, livecomment_model.livestream_id)
        }
}

/// The report of a row: the row's own fields, its reporter read through the
/// user cache, and the livecomment that it is about, read from the backing
/// store and composed from cached reads. A cached reporter is the reporter.
/// With a user cache that never held more than its bound and has room for
/// the reporter, the cached author and the cached livestream of the
/// livecomment are shown. A livecomment or a livestream that does not exist
/// is reported as a missing row.
pub fn fill_livecomment_report_response<F, G, H, J, E>(
    report_model: LivecommentReportModel,
    user_cache: &mut UserCache,
    tags_cache: &mut TagsCache,
    livestream_cache: &mut LivestreamCache,
    fetch_user: &F,
    fetch_tags: &G,
    fetch_livestream: &H,
    fetch_livecomment: &J,
) -> (response: Result<LivecommentReport, FillError<E>>) where
    F: Fn(i64) -> Result<User, E>,
    G: Fn(i64) -> Result<Vec<Tag>, E>,
    H: Fn(i64) -> Result<Option<LivestreamModel>, E>,
    J: Fn(i64) -> Result<Option<LivecommentModel>, E>,

    requires
        forall|key: i64| #[trigger] fetch_user.requires((key,)),
        forall|key: i64| #[trigger] fetch_tags.requires((key,)),
        forall|key: i64| #[trigger] fetch_livestream.requires((key,)),
        fetch_livecomment.requires((report_model.livecomment_id,)),
    ensures
        users_cached_or_fetched(old(user_cache)@, final(user_cache)@, fetch_user),
        tags_cached_or_fetched(old(tags_cache)@, final(tags_cache)@, fetch_tags),
        rows_cached_or_fetched(old(livestream_cache)@, final(livestream_cache)@, fetch_livestream),
        match response {
            Ok(report) => report_read(
                report,
                report_model,
                old(user_cache)@,
                old(tags_cache)@,
                old(livestream_cache)@,
                fetch_user,
                fetch_tags,
                fetch_livestream,
                fetch_livecomment,
            ),
            Err(FillError::RowNotFound) => report_row_missing(
                report_model.livecomment_id,
                old(livestream_cache)@,
                fetch_livestream,
                fetch_livecomment,
            ),
            Err(FillError::Store(error)) => {
                ||| fetch_livecomment.ensures((report_model.livecomment_id,), Err(error))
                ||| livestream_read_fails(error, fetch_user, fetch_tags, fetch_livestream)
            },
        },
        response is Ok && old(user_cache)@.contains_key(report_model.user_id)
            ==> response->Ok_0.reporter@ == old(user_cache)@[report_model.user_id],
        response is Ok && old(user_cache).exact() && has_room(
            old(user_cache)@.dom(),
            report_model.user_id,
            MAX_ENTRIES,
        ) ==> report_shows_cached(
            response->Ok_0,
            report_model.livecomment_id,
            old(user_cache)@,
            old(tags_cache)@,
            old(livestream_cache)@,
            fetch_livecomment,
        ),
{
    let reporter = match user_cache.get_or_insert(report_model.user_id, fetch_user) {
        Ok(user) => user,
        Err(error) => {
            return Err(FillError::Store(error));
        },
    };
    assert(cached_or_fetched_user(
        old(user_cache)@,
        fetch_user,
        report_model.user_id,
        reporter@,
    ));
    let ghost users = user_cache@;
    assert(users_cached_or_fetched(old(user_cache)@, users, fetch_user));
    let livecomment_model = match fetch_livecomment(report_model.livecomment_id) {
        Ok(Some(livecomment_model)) => livecomment_model,
        Ok(None) => {
            return Err(FillError::RowNotFound);
        },
        Err(error) => {
            return Err(FillError::Store(error));
        },
    };
    let ghost fetched = livecomment_model;
    let livecomment = match fill_livecomment_response(
        livecomment_model,
        user_cache,
        tags_cache,
        livestream_cache,
        fetch_user,
        fetch_tags,
        fetch_livestream,
    ) {
        Ok(livecomment) => livecomment,
        Err(reason) => {
            proof {
                lemma_users_cached_or_fetched_twice(
                    old(user_cache)@,
                    users,
                    user_cache@,
                    fetch_user,
                );
            }
            return Err(reason);
        },
    };
    proof {
        lemma_users_cached_or_fetched_twice(old(user_cache)@, users, user_cache@, fetch_user);
        lemma_livecomment_read_later(
            livecomment,
            fetched,
            old(user_cache)@,
            users,
            old(tags_cache)@,
            old(livestream_cache)@,
            fetch_user,
            fetch_tags,
            fetch_livestream,
        );
    }
    Ok(
        LivecommentReport {
            id: report_model.id,
            reporter,
            livecomment,
            created_at: report_model.created_at,
        },
    )
}

/// Whether a composition ended because the store failed to give the author
/// `user_id`.
pub open spec fn author_read_failed<T, F, E>(
    response: Result<T, FillError<E>>,
    fetch_user: &F,
    user_id: i64,
) -> bool where F: Fn(i64) -> Result<User, E> {
    response matches Err(FillError::Store(error)) && fetch_user.ensures((user_id,), Err(error))
}

/// The reaction of a row: the row's own fields, its author as the backing
/// store gives them now, and the livestream that it was given to, composed
/// from cached reads. The author is not read through the user cache. Once
/// the author is read, a livestream whose parts are all cached is the cached
/// one and nothing fails, and one that does not exist is reported as a
/// missing row.
pub fn fill_reaction_response<F, G, H, E>(
    reaction_model: ReactionModel,
    user_cache: &mut UserCache,
    tags_cache: &mut TagsCache,
    livestream_cache: &mut LivestreamCache,
    fetch_user: &F,
    fetch_tags: &G,
    fetch_livestream: &H,
) -> (response: Result<Reaction, FillError<E>>) where
    F: Fn(i64) -> Result<User, E>,
    G: Fn(i64) -> Result<Vec<Tag>, E>,
    H: Fn(i64) -> Result<Option<LivestreamModel>, E>,

    requires
        forall|key: i64| #[trigger] fetch_user.requires((key,)),
        forall|key: i64| #[trigger] fetch_tags.requires((key,)),
        forall|key: i64| #[trigger] fetch_livestream.requires((key,)),
    ensures
        users_cached_or_fetched(old(user_cache)@, final(user_cache)@, fetch_user),
        tags_cached_or_fetched(old(tags_cache)@, final(tags_cache)@, fetch_tags),
        rows_cached_or_fetched(old(livestream_cache)@, final(livestream_cache)@, fetch_livestream),
        match response {
            Ok(reaction) => {
                &&& reaction.id == reaction_model.id
                &&& reaction.emoji_name == reaction_model.emoji_name
                &&& reaction.created_at == reaction_model.created_at
                &&& fetch_user.ensures((reaction_model.user_id,), Ok(reaction.user))
                &&& livestream_found(
                    reaction.livestream@,
                    reaction_model.livestream_id,
                    old(user_cache)@,
                    old(tags_cache)@,
                    old(livestream_cache)@,
                    fetch_user,
                    fetch_tags,
                    fetch_livestream,
                )
            },
            Err(FillError::RowNotFound) => row_missing(
                old(livestream_cache)@,
                fetch_livestream,
                reaction_model.livestream_id,
            ),
            Err(FillError::Store(error)) => livestream_read_fails(
                error,
                fetch_user,
                fetch_tags,
                fetch_livestream,
            ),
        },
        author_read_failed(response, fetch_user, reaction_model.user_id) || {
            &&& old(livestream_cache)@.contains_key(reaction_model.livestream_id) && old(
                livestream_cache,
            )@[reaction_model.livestream_id] is None ==> response is Err && response->Err_0
                is RowNotFound
            &&& cached_livestream(
                reaction_model.livestream_id,
                old(user_cache)@,
                old(tags_cache)@,
                old(livestream_cache)@,
            ) is Some ==> response is Ok && Some(response->Ok_0.livestream@) == cached_livestream(
                reaction_model.livestream_id,
                old(user_cache)@,
                old(tags_cache)@,
                old(livestream_cache)@,
            )
        },
        all_cached_reads_leave(
            cached_livestream(
                reaction_model.livestream_id,
                old(user_cache)@,
                old(tags_cache)@,
                old(livestream_cache)@,
            ) is Some,
            old(user_cache),
            final(user_cache),
            old(tags_cache),
            final(tags_cache),
            old(livestream_cache),
            final(livestream_cache),
        ),
{
    let user = match fetch_user(reaction_model.user_id) {
        Ok(user) => user,
        Err(error) => {
            return Err(FillError::Store(error));
        },
    };
    let livestream = match find_livestream(
        reaction_model.livestream_id,
        user_cache,
        tags_cache,
        livestream_cache,
        fetch_user,
        fetch_tags,
        fetch_livestream,
    ) {
        Ok(livestream) => livestream,
        Err(reason) => {
            return Err(reason);
        },
    };
    Ok(
        Reaction {
            id: reaction_model.id,
            emoji_name: reaction_model.emoji_name,
            user,
            livestream,
            created_at: reaction_model.created_at,
        },
    )
}

} // verus!
