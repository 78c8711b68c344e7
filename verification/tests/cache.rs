use std::cell::Cell;

use isupipe::cache::ResultCache;
use isupipe::entity::{LivestreamModel, Tag, Theme, User};
use isupipe::snapshot::{EntityKind, Snapshot};
use isupipe::typed::{
    LivestreamCache, TagsCache, UserCache, UserIdToLivestreamsCache, MAX_ENTRIES,
};

fn user(id: i64, name: &str) -> User {
    User {
        id,
        name: name.to_owned(),
        display_name: Some(format!("{} san", name)),
        description: None,
        theme: Theme { id, dark_mode: id % 2 == 0 },
        icon_hash: "d9f4f1a7".to_owned(),
    }
}

fn tag(id: i64, name: &str) -> Tag {
    Tag { id, name: name.to_owned() }
}

fn livestream(id: i64, user_id: i64) -> LivestreamModel {
    LivestreamModel {
        id,
        user_id,
        title: format!("stream {}", id),
        description: "live".to_owned(),
        playlist_url: "https://media.example/playlist.m3u8".to_owned(),
        thumbnail_url: "https://media.example/thumbnail.png".to_owned(),
        start_at: 1_700_874_000,
        end_at: 1_700_877_600,
    }
}

fn read_user(cache: &mut ResultCache, key: i64, name: &str, calls: &Cell<u32>) -> Snapshot {
    let read: Result<Snapshot, ()> = cache.get_or_populate(key, |id| {
        calls.set(calls.get() + 1);
        Ok(Snapshot::User(user(id, name)))
    });
    read.unwrap()
}

#[test]
fn a_new_cache_holds_nothing() {
    let calls = Cell::new(0);
    let mut cache = ResultCache::new(EntityKind::User, 1000);
    assert_eq!(cache.kind(), EntityKind::User);
    assert_eq!(cache.max_entries(), 1000);
    assert_eq!(read_user(&mut cache, 42, "first", &calls), Snapshot::User(user(42, "first")));
    assert_eq!(calls.get(), 1);
}

#[test]
fn the_instances_hold_a_thousand_entries() {
    assert_eq!(MAX_ENTRIES, 1000);
    assert_eq!(UserCache::new().max_entries(), 1000);
    assert_eq!(TagsCache::new().max_entries(), 1000);
    assert_eq!(UserIdToLivestreamsCache::new().max_entries(), 1000);
    assert_eq!(LivestreamCache::new().max_entries(), 1000);
}

#[test]
fn a_cache_with_room_keeps_all_that_was_read() {
    let calls = Cell::new(0);
    let mut cache = ResultCache::new(EntityKind::User, 3);
    for key in [1, 2, 3] {
        read_user(&mut cache, key, "first", &calls);
    }
    assert_eq!(calls.get(), 3);
    for key in [3, 1, 2, 2, 1] {
        assert_eq!(read_user(&mut cache, key, "second", &calls), Snapshot::User(user(key, "first")));
    }
    assert_eq!(calls.get(), 3);
}

#[test]
fn a_read_of_one_key_leaves_the_others() {
    let calls = Cell::new(0);
    let mut cache = ResultCache::new(EntityKind::User, 10);
    read_user(&mut cache, 7, "nana", &calls);
    read_user(&mut cache, 8, "hachi", &calls);
    cache.invalidate(8);
    read_user(&mut cache, 8, "hachi again", &calls);
    assert_eq!(read_user(&mut cache, 7, "other", &calls), Snapshot::User(user(7, "nana")));
    assert_eq!(read_user(&mut cache, 8, "other", &calls), Snapshot::User(user(8, "hachi again")));
    assert_eq!(calls.get(), 3);
}

#[test]
fn a_snapshot_of_another_kind_is_not_stored() {
    let calls = Cell::new(0);
    let mut cache = ResultCache::new(EntityKind::User, 10);
    for _ in 0..2 {
        let read: Result<Snapshot, ()> = cache.get_or_populate(7, |_| {
            calls.set(calls.get() + 1);
            Ok(Snapshot::Tags(vec![tag(1, "music")]))
        });
        assert_eq!(read, Ok(Snapshot::Tags(vec![tag(1, "music")])));
    }
    assert_eq!(calls.get(), 2);
    assert_eq!(read_user(&mut cache, 7, "nana", &calls), Snapshot::User(user(7, "nana")));
}

#[test]
fn a_miss_populates_and_a_hit_does_not() {
    let calls = Cell::new(0);
    let mut cache = ResultCache::new(EntityKind::Livestream, 10);
    let first: Result<Snapshot, ()> = cache.get_or_populate(42, |id| {
        calls.set(calls.get() + 1);
        Ok(Snapshot::Livestream(Some(livestream(id, 7))))
    });
    assert_eq!(first, Ok(Snapshot::Livestream(Some(livestream(42, 7)))));
    let second: Result<Snapshot, ()> = cache.get_or_populate(42, |_| {
        calls.set(calls.get() + 1);
        Ok(Snapshot::Livestream(None))
    });
    assert_eq!(second, Ok(Snapshot::Livestream(Some(livestream(42, 7)))));
    assert_eq!(calls.get(), 1);
}

#[test]
fn the_population_function_is_given_the_key() {
    let mut cache = UserCache::new();
    let read: Result<User, ()> = cache.get_or_insert(31, |id| Ok(user(id, "sato")));
    assert_eq!(read.map(|user| user.id), Ok(31));
}

#[test]
fn a_failed_population_is_handed_on_and_not_cached() {
    let mut cache = UserCache::new();
    let failed: Result<User, String> = cache.get_or_insert(7, |_| Err("connection lost".to_owned()));
    assert_eq!(failed, Err("connection lost".to_owned()));
    let calls = Cell::new(0);
    let read: Result<User, String> = cache.get_or_insert(7, |id| {
        calls.set(calls.get() + 1);
        Ok(user(id, "nana"))
    });
    assert_eq!(read, Ok(user(7, "nana")));
    assert_eq!(calls.get(), 1);
}

#[test]
fn an_invalidated_key_is_read_from_the_store_again() {
    let mut cache = UserCache::new();
    let old: Result<User, ()> = cache.get_or_insert(7, |id| Ok(user(id, "before")));
    assert_eq!(old, Ok(user(7, "before")));
    cache.invalidate(7);
    let new: Result<User, ()> = cache.get_or_insert(7, |id| Ok(user(id, "after")));
    assert_eq!(new, Ok(user(7, "after")));
    let again: Result<User, ()> = cache.get_or_insert(7, |id| Ok(user(id, "later")));
    assert_eq!(again, Ok(user(7, "after")));
}

#[test]
fn invalidating_one_key_leaves_the_others() {
    let mut cache = TagsCache::new();
    let _: Result<Vec<Tag>, ()> = cache.get_or_insert(1, |_| Ok(vec![tag(1, "music")]));
    let _: Result<Vec<Tag>, ()> = cache.get_or_insert(2, |_| Ok(vec![tag(3, "talk")]));
    cache.invalidate(1);
    let kept: Result<Vec<Tag>, ()> = cache.get_or_insert(2, |_| Ok(Vec::new()));
    assert_eq!(kept, Ok(vec![tag(3, "talk")]));
    let read: Result<Vec<Tag>, ()> = cache.get_or_insert(1, |_| Ok(Vec::new()));
    assert_eq!(read, Ok(Vec::new()));
}

#[test]
fn invalidating_an_absent_key_changes_nothing() {
    let mut cache = UserIdToLivestreamsCache::new();
    cache.invalidate(7);
    let _: Result<Vec<LivestreamModel>, ()> =
        cache.get_or_insert(8, |id| Ok(vec![livestream(42, id)]));
    cache.invalidate(7);
    cache.invalidate(7);
    let calls = Cell::new(0);
    let kept: Result<Vec<LivestreamModel>, ()> = cache.get_or_insert(8, |_| {
        calls.set(calls.get() + 1);
        Ok(Vec::new())
    });
    assert_eq!(kept, Ok(vec![livestream(42, 8)]));
    assert_eq!(calls.get(), 0);
}

#[test]
fn invalidate_all_empties_the_cache() {
    let mut cache = LivestreamCache::new();
    let _: Result<Option<LivestreamModel>, ()> =
        cache.get_or_insert(42, |id| Ok(Some(livestream(id, 7))));
    let _: Result<Option<LivestreamModel>, ()> = cache.get_or_insert(43, |_| Ok(None));
    cache.invalidate_all();
    let first: Result<Option<LivestreamModel>, ()> = cache.get_or_insert(42, |_| Ok(None));
    assert_eq!(first, Ok(None));
    let second: Result<Option<LivestreamModel>, ()> =
        cache.get_or_insert(43, |id| Ok(Some(livestream(id, 9))));
    assert_eq!(second, Ok(Some(livestream(43, 9))));
}

#[test]
fn a_cache_is_usable_at_once_after_invalidate_all() {
    let calls = Cell::new(0);
    let mut cache = ResultCache::new(EntityKind::User, 10);
    read_user(&mut cache, 7, "before", &calls);
    cache.invalidate_all();
    assert_eq!(read_user(&mut cache, 7, "after", &calls), Snapshot::User(user(7, "after")));
    assert_eq!(read_user(&mut cache, 7, "later", &calls), Snapshot::User(user(7, "after")));
    assert_eq!(calls.get(), 2);
    assert_eq!(cache.kind(), EntityKind::User);
    assert_eq!(cache.max_entries(), 10);
}

#[test]
fn the_absence_of_a_livestream_is_cached() {
    let calls = Cell::new(0);
    let mut cache = LivestreamCache::new();
    let first: Result<Option<LivestreamModel>, ()> = cache.get_or_insert(404, |_| {
        calls.set(calls.get() + 1);
        Ok(None)
    });
    let second: Result<Option<LivestreamModel>, ()> = cache.get_or_insert(404, |id| {
        calls.set(calls.get() + 1);
        Ok(Some(livestream(id, 1)))
    });
    assert_eq!(first, Ok(None));
    assert_eq!(second, Ok(None));
    assert_eq!(calls.get(), 1);
}

#[test]
fn a_cached_value_is_a_copy() {
    let mut cache = TagsCache::new();
    let first: Result<Vec<Tag>, ()> = cache.get_or_insert(1, |_| Ok(vec![tag(1, "music")]));
    let mut changed = first.unwrap();
    changed.push(tag(9, "added by the caller"));
    changed[0].name.push_str(" and more");
    let second: Result<Vec<Tag>, ()> = cache.get_or_insert(1, |_| Ok(Vec::new()));
    assert_eq!(second, Ok(vec![tag(1, "music")]));
}

#[test]
fn a_cache_of_no_capacity_reads_through_every_time() {
    let calls = Cell::new(0);
    let mut cache = ResultCache::new(EntityKind::User, 0);
    for _ in 0..3 {
        let read: Result<Snapshot, ()> = cache.get_or_populate(7, |id| {
            calls.set(calls.get() + 1);
            Ok(Snapshot::User(user(id, "nana")))
        });
        assert_eq!(read, Ok(Snapshot::User(user(7, "nana"))));
    }
    assert_eq!(calls.get(), 3);
}

#[test]
fn snapshots_know_their_kind() {
    assert_eq!(Snapshot::User(user(1, "a")).kind(), EntityKind::User);
    assert_eq!(Snapshot::Tags(Vec::new()).kind(), EntityKind::Tags);
    assert_eq!(Snapshot::OwnedLivestreams(Vec::new()).kind(), EntityKind::OwnedLivestreams);
    assert_eq!(Snapshot::Livestream(None).kind(), EntityKind::Livestream);
}
