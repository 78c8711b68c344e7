use std::cell::{Cell, RefCell};

use isupipe::booking::{BookingWindow, ReservationSlot, SlotTable};
use isupipe::entity::{LivestreamModel, Tag, Theme, User};
use isupipe::error::Error;
use isupipe::invalidation::{Caches, Write};
use isupipe::response::{fill_livestream_response, find_livestream};

fn user(id: i64, icon_hash: &str) -> User {
    User {
        id,
        name: format!("user{}", id),
        display_name: None,
        description: None,
        theme: Theme { id, dark_mode: false },
        icon_hash: icon_hash.to_owned(),
    }
}

fn row(id: i64, user_id: i64) -> LivestreamModel {
    LivestreamModel {
        id,
        user_id,
        title: format!("stream {}", id),
        description: String::new(),
        playlist_url: String::new(),
        thumbnail_url: String::new(),
        start_at: 1_700_874_000,
        end_at: 1_700_877_600,
    }
}

fn tags(ids: &[i64]) -> Vec<Tag> {
    ids.iter().map(|id| Tag { id: *id, name: format!("tag{}", id) }).collect()
}

fn filled() -> Caches {
    let mut caches = Caches::new();
    let _: Result<User, ()> = caches.user_cache.get_or_insert(7, |id| Ok(user(id, "first icon")));
    let _: Result<Vec<Tag>, ()> = caches.tags_cache.get_or_insert(42, |_| Ok(tags(&[1, 3])));
    let _: Result<Vec<LivestreamModel>, ()> =
        caches.user_id_to_livestreams_cache.get_or_insert(7, |id| Ok(vec![row(42, id)]));
    let _: Result<Option<LivestreamModel>, ()> =
        caches.livestream_cache.get_or_insert(42, |id| Ok(Some(row(id, 7))));
    caches
}

fn cached(caches: &mut Caches) -> (bool, bool, bool, bool) {
    let user = Cell::new(true);
    let tag = Cell::new(true);
    let owned = Cell::new(true);
    let one = Cell::new(true);
    let _: Result<User, ()> = caches.user_cache.get_or_insert(7, |id| {
        user.set(false);
        Ok(user_of(id))
    });
    let _: Result<Vec<Tag>, ()> = caches.tags_cache.get_or_insert(42, |_| {
        tag.set(false);
        Ok(tags(&[1, 3]))
    });
    let _: Result<Vec<LivestreamModel>, ()> =
        caches.user_id_to_livestreams_cache.get_or_insert(7, |id| {
            owned.set(false);
            Ok(vec![row(42, id)])
        });
    let _: Result<Option<LivestreamModel>, ()> = caches.livestream_cache.get_or_insert(42, |id| {
        one.set(false);
        Ok(Some(row(id, 7)))
    });
    (user.get(), tag.get(), owned.get(), one.get())
}

fn user_of(id: i64) -> User {
    user(id, "first icon")
}

#[test]
fn new_caches_are_empty() {
    let mut caches = Caches::new();
    assert_eq!(cached(&mut caches), (false, false, false, false));
}

#[test]
fn a_reservation_drops_the_list_of_its_owner() {
    let mut caches = filled();
    caches.invalidate_for(Write::ReservationCreated { owner_id: 7 });
    assert_eq!(cached(&mut caches), (true, true, false, true));
}

#[test]
fn a_reservation_leaves_the_lists_of_others() {
    let mut caches = filled();
    caches.invalidate_for(Write::ReservationCreated { owner_id: 8 });
    assert_eq!(cached(&mut caches), (true, true, true, true));
}

#[test]
fn a_changed_icon_drops_its_user() {
    let mut caches = filled();
    caches.invalidate_for(Write::IconChanged { user_id: 7 });
    assert_eq!(cached(&mut caches), (false, true, true, true));
    let mut others = filled();
    others.invalidate_for(Write::IconChanged { user_id: 42 });
    assert_eq!(cached(&mut others), (true, true, true, true));
}

#[test]
fn a_new_data_set_drops_everything() {
    let mut caches = filled();
    caches.invalidate_for(Write::Reinitialized);
    assert_eq!(cached(&mut caches), (false, false, false, false));
    let mut again = filled();
    again.reset();
    assert_eq!(cached(&mut again), (false, false, false, false));
}

#[test]
fn initialisation_empties_the_caches_and_reports_success() {
    let mut caches = filled();
    assert_eq!(caches.initialize(true, "ok", ""), Ok(()));
    assert_eq!(cached(&mut caches), (false, false, false, false));
}

#[test]
fn a_failed_initialisation_empties_the_caches_too() {
    let mut caches = filled();
    let failed = caches.initialize(false, "loading\n", "mysql: not found\n");
    assert_eq!(
        failed,
        Err(Error::InternalServerError(
            "init.sh failed with stdout=loading\n stderr=mysql: not found\n".to_owned()
        ))
    );
    assert_eq!(cached(&mut caches), (false, false, false, false));
}

#[test]
fn a_user_shows_the_new_icon_after_the_change() {
    let icon = RefCell::new("first icon".to_owned());
    let mut caches = Caches::new();
    let read = |id: i64| -> Result<User, ()> { Ok(user(id, icon.borrow().as_str())) };
    assert_eq!(caches.user_cache.get_or_insert(7, &read), Ok(user(7, "first icon")));
    *icon.borrow_mut() = "second icon".to_owned();
    assert_eq!(caches.user_cache.get_or_insert(7, &read), Ok(user(7, "first icon")));
    caches.invalidate_for(Write::IconChanged { user_id: 7 });
    assert_eq!(caches.user_cache.get_or_insert(7, &read), Ok(user(7, "second icon")));
}

#[test]
fn a_new_reservation_shows_in_the_list_of_its_owner() {
    let window = BookingWindow { start_at: 1_700_874_000, end_at: 1_732_496_400 };
    let mut slots = SlotTable::new(vec![ReservationSlot {
        start_at: 1_700_874_000,
        end_at: 1_700_877_600,
        slot: 1,
    }]);
    let livestreams = RefCell::new(vec![row(42, 7)]);
    let row_reads = Cell::new(0);
    let list_of = |user_id: i64| -> Result<Vec<LivestreamModel>, ()> {
        Ok(livestreams.borrow().iter().filter(|row| row.user_id == user_id).cloned().collect())
    };
    let find = |id: i64| -> Result<Option<LivestreamModel>, ()> {
        row_reads.set(row_reads.get() + 1);
        Ok(livestreams.borrow().iter().find(|row| row.id == id).cloned())
    };
    let owner = |id: i64| -> Result<User, ()> { Ok(user(id, "icon")) };
    let tags_of = |_: i64| -> Result<Vec<Tag>, ()> { Ok(tags(&[1, 3])) };

    let mut caches = Caches::new();
    let before = find_livestream(
        42,
        &mut caches.user_cache,
        &mut caches.tags_cache,
        &mut caches.livestream_cache,
        &owner,
        &tags_of,
        &find,
    )
    .unwrap();
    assert_eq!(before.owner, user(7, "icon"));
    assert_eq!(before.tags, tags(&[1, 3]));
    assert_eq!(caches.user_id_to_livestreams_cache.get_or_insert(7, &list_of), Ok(vec![row(42, 7)]));

    assert_eq!(slots.reserve(window, 1_700_874_000, 1_700_877_600), Ok(()));
    livestreams.borrow_mut().push(row(43, 7));
    caches.invalidate_for(Write::ReservationCreated { owner_id: 7 });

    assert_eq!(
        caches.user_id_to_livestreams_cache.get_or_insert(7, &list_of),
        Ok(vec![row(42, 7), row(43, 7)])
    );
    let after = find_livestream(
        42,
        &mut caches.user_cache,
        &mut caches.tags_cache,
        &mut caches.livestream_cache,
        &owner,
        &tags_of,
        &find,
    )
    .unwrap();
    assert_eq!(after, before);
    assert_eq!(row_reads.get(), 1);
}

#[test]
fn the_response_to_a_reservation_is_composed_from_the_caches() {
    let mut caches = Caches::new();
    let owner = |id: i64| -> Result<User, ()> { Ok(user(id, "icon")) };
    let tags_of = |_: i64| -> Result<Vec<Tag>, ()> { Ok(tags(&[2])) };
    caches.invalidate_for(Write::ReservationCreated { owner_id: 7 });
    let response = fill_livestream_response(
        row(43, 7),
        &mut caches.user_cache,
        &mut caches.tags_cache,
        &owner,
        &tags_of,
    )
    .unwrap();
    assert_eq!(response.id, 43);
    assert_eq!(response.owner, user(7, "icon"));
    assert_eq!(response.tags, tags(&[2]));
}
