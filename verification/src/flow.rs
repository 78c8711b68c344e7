//! The steps of one booking attempt inside its transaction: validate the
//! range, lock the candidate slots, check their capacity, take one unit from
//! each, insert the reservation, invalidate the owner's list, commit.
//!
//! The library decides what comes next; whoever holds the transaction does
//! it and reports back.

use vstd::prelude::*;
use crate::booking::{all_available, check_capacity, BookingError, BookingWindow, ReservationSlot};

verus! {

/// How far a booking attempt has come.
#[derive(Clone, Copy, Debug, PartialEq, Eq, Structural)]
pub enum BookingState {
    /// Nothing has been done.
    Requested,
    /// The locking read of the candidate slots is under way.
    Locking,
    /// The capacity of the locked slots is being taken.
    Taking,
    /// The reservation is being inserted.
    Inserting,
    /// The owner's list of livestreams is being invalidated.
    Invalidating,
    /// The transaction is being committed.
    Committing,
    /// The reservation is made.
    Booked,
    /// The attempt was refused; nothing was written.
    Refused,
}

/// What the holder of the transaction reports.
#[derive(Clone, Debug, PartialEq, Eq)]
pub enum BookingEvent {
    /// A request has come in.
    Begun,
    /// The candidate slots are locked; these are their rows.
    SlotsLocked(Vec<ReservationSlot>),
    /// What the last action asked for is done.
    Done,
}

/// What the holder of the transaction is to do next.
#[derive(Clone, Copy, Debug, PartialEq, Eq, Structural)]
pub enum BookingAction {
    /// Read, with row locks, the slots within `[start_at, end_at)`.
    LockSlots { start_at: i64, end_at: i64 },
    /// Take one unit of capacity from the slots within `[start_at, end_at)`.
    TakeCapacity { start_at: i64, end_at: i64 },
    /// Insert the reservation.
    InsertReservation,
    /// Invalidate the list of livestreams of the user `owner_id`.
    InvalidateOwnerList { owner_id: i64 },
    /// Commit the transaction.
    Commit,
    /// Answer the request with the reservation.
    Respond,
    /// Roll back and answer the request with the refusal.
    Refuse(BookingError),
    /// The report does not fit the state: roll back.
    Abort,
}

/// A request for a reservation, as far as the steps depend on it.
#[derive(Clone, Copy, Debug, PartialEq, Eq, Structural)]
pub struct BookingRequest {
    pub owner_id: i64,
    pub start_at: i64,
    pub end_at: i64,
}

/// The value of an event: the rows of the locked slots, where it reports
/// them.
pub enum BookingEventView {
    Begun,
    SlotsLocked(Seq<ReservationSlot>),
    Done,
}

impl View for BookingEvent {
    type V = BookingEventView;

    open spec fn view(&self) -> BookingEventView {
        match *self {
            BookingEvent::Begun => BookingEventView::Begun,
            BookingEvent::SlotsLocked(rows) => BookingEventView::SlotsLocked(rows@),
            BookingEvent::Done => BookingEventView::Done,
        }
    }
}

/// The state that follows `state` on `event`, and the action that leads
/// there.
pub open spec fn next_step(
    state: BookingState,
    event: BookingEventView,
    request: BookingRequest,
    window: BookingWindow,
) -> (BookingState, BookingAction) {
    match (state, event) {
        (BookingState::Requested, BookingEventView::Begun) => if window.admits(
            request.start_at,
            request.end_at,
        ) {
            (
                BookingState::Locking,
                BookingAction::LockSlots { start_at: request.start_at, end_at: request.end_at },
            )
        } else {
            (BookingState::Refused, BookingAction::Refuse(BookingError::OutOfTerm))
        },
        (BookingState::Locking, BookingEventView::SlotsLocked(rows)) => if all_available(rows) {
            (
                BookingState::Taking,
                BookingAction::TakeCapacity { start_at: request.start_at, end_at: request.end_at },
            )
        } else {
            (BookingState::Refused, BookingAction::Refuse(BookingError::SoldOut))
        },
        (BookingState::Taking, BookingEventView::Done) => (
            BookingState::Inserting,
            BookingAction::InsertReservation,
        ),
        (BookingState::Inserting, BookingEventView::Done) => (
            BookingState::Invalidating,
            BookingAction::InvalidateOwnerList { owner_id: request.owner_id },
        ),
        (BookingState::Invalidating, BookingEventView::Done) => (
            BookingState::Committing,
            BookingAction::Commit,
        ),
        (BookingState::Committing, BookingEventView::Done) => (
            BookingState::Booked,
            BookingAction::Respond,
        ),
        _ => (BookingState::Refused, BookingAction::Abort),
    }
}

/// Whether an action writes to the store or to a cache.
pub open spec fn writes(action: BookingAction) -> bool {
    action is TakeCapacity || action is InsertReservation || action is InvalidateOwnerList
        || action is Commit
}

/// The state that follows `state` on `event`, and the action that leads
/// there.
pub fn advance(
    state: BookingState,
    event: &BookingEvent,
    request: BookingRequest,
    window: BookingWindow,
) -> (step: (BookingState, BookingAction))
    ensures
        step == next_step(state, event@, request, window),
{
    match (state, event) {
        (BookingState::Requested, BookingEvent::Begun) => {
            match window.validate(request.start_at, request.end_at) {
                Ok(_) => (
                    BookingState::Locking,
                    BookingAction::LockSlots {
                        start_at: request.start_at,
                        end_at: request.end_at,
                    },
                ),
                Err(reason) => (BookingState::Refused, BookingAction::Refuse(reason)),
            }
        },
        (BookingState::Locking, BookingEvent::SlotsLocked(rows)) => {
            match check_capacity(rows) {
                Ok(_) => (
                    BookingState::Taking,
                    BookingAction::TakeCapacity {
                        start_at: request.start_at,
                        end_at: request.end_at,
                    },
                ),
                Err(reason) => (BookingState::Refused, BookingAction::Refuse(reason)),
            }
        },
        (BookingState::Taking, BookingEvent::Done) => (
            BookingState::Inserting,
            BookingAction::InsertReservation,
        ),
        (BookingState::Inserting, BookingEvent::Done) => (
            BookingState::Invalidating,
            BookingAction::InvalidateOwnerList { owner_id: request.owner_id },
        ),
        (BookingState::Invalidating, BookingEvent::Done) => (
            BookingState::Committing,
            BookingAction::Commit,
        ),
        (BookingState::Committing, BookingEvent::Done) => (
            BookingState::Booked,
            BookingAction::Respond,
        ),
        _ => (BookingState::Refused, BookingAction::Abort),
    }
}

/// The state after the steps that `events` drive from `state`.
pub open spec fn state_after(
    state: BookingState,
    events: Seq<BookingEventView>,
    request: BookingRequest,
    window: BookingWindow,
) -> BookingState
    decreases events.len(),
{
    if events.len() == 0 {
        state
    } else {
        next_step(state_after(state, events.drop_last(), request, window), events.last(), request, window).0
    }
}

/// The action of the last of the steps that `events` drive from `state`.
pub open spec fn last_action(
    state: BookingState,
    events: Seq<BookingEventView>,
    request: BookingRequest,
    window: BookingWindow,
) -> BookingAction
    recommends
        events.len() > 0,
{
    next_step(state_after(state, events.drop_last(), request, window), events.last(), request, window).1
}

/// Whether one of the steps that `events` drive from `state` writes.
pub open spec fn has_written(
    state: BookingState,
    events: Seq<BookingEventView>,
    request: BookingRequest,
    window: BookingWindow,
) -> bool {
    exists|n: int|
        0 < n <= events.len() && writes(#[trigger] last_action(state, events.take(n), request, window))
}

/// A booking attempt that was refused has written nothing, and it was
/// refused for a range outside the term or for a locked slot without
/// capacity; an attempt that writes has passed both checks.
pub proof fn lemma_refused_before_any_write(
    events: Seq<BookingEventView>,
    request: BookingRequest,
    window: BookingWindow,
)
    requires
        events.len() > 0,
        last_action(BookingState::Requested, events, request, window) is Refuse,
    ensures
        !has_written(BookingState::Requested, events, request, window),
        events.len() <= 2,
        events.len() == 1 ==> !window.admits(request.start_at, request.end_at),
        events.len() == 2 ==> window.admits(request.start_at, request.end_at)
            && events[1] is SlotsLocked && !all_available(events[1]->SlotsLocked_0),
{
    let start = BookingState::Requested;
    lemma_progress(events.drop_last(), request, window);
    assert(events.take(events.len() as int) =~= events);
    assert forall|n: int| 0 < n <= events.len() implies !writes(
        #[trigger] last_action(start, events.take(n), request, window),
    ) by {
        if n == 2 && events.len() == 2 {
            assert(events.take(2) =~= events);
        } else if n == 1 {
            assert(events.take(1).drop_last() =~= Seq::<BookingEventView>::empty());
            assert(state_after(start, Seq::<BookingEventView>::empty(), request, window) == start);
        }
    }
    if events.len() == 2 {
        assert(events.drop_last().drop_last() =~= Seq::<BookingEventView>::empty());
    }
}

/// The state of an attempt tells how many steps it has taken: an attempt is
/// in the state `Locking` after one step, in `Taking` after two, and so on;
/// every other sequence of reports ends in `Refused`.
pub proof fn lemma_progress(
    events: Seq<BookingEventView>,
    request: BookingRequest,
    window: BookingWindow,
)
    ensures
        match state_after(BookingState::Requested, events, request, window) {
            BookingState::Requested => events.len() == 0,
            BookingState::Locking => events.len() == 1 && window.admits(
                request.start_at,
                request.end_at,
            ),
            BookingState::Taking => events.len() == 2 && window.admits(
                request.start_at,
                request.end_at,
            ) && events[1] is SlotsLocked && all_available(events[1]->SlotsLocked_0),
            BookingState::Inserting => events.len() == 3,
            BookingState::Invalidating => events.len() == 4,
            BookingState::Committing => events.len() == 5,
            BookingState::Booked => events.len() == 6,
            BookingState::Refused => events.len() >= 1,
        },
    decreases events.len(),
{
    if events.len() > 0 {
        lemma_progress(events.drop_last(), request, window);
        if events.len() >= 3 {
            assert(events.drop_last()[1] == events[1]);
        }
    }
}

/// A reservation is only made by the six steps in their order: the range
/// was admitted, every locked slot had capacity, and capacity was taken
/// before the reservation was inserted, the owner's list invalidated and
/// the transaction committed.
pub proof fn lemma_booked_in_order(
    events: Seq<BookingEventView>,
    request: BookingRequest,
    window: BookingWindow,
)
    requires
        state_after(BookingState::Requested, events, request, window) == BookingState::Booked,
    ensures
        events.len() == 6,
        window.admits(request.start_at, request.end_at),
        events[1] is SlotsLocked && all_available(events[1]->SlotsLocked_0),
        last_action(BookingState::Requested, events.take(1), request, window)
            == (BookingAction::LockSlots { start_at: request.start_at, end_at: request.end_at }),
        last_action(BookingState::Requested, events.take(2), request, window)
            == (BookingAction::TakeCapacity { start_at: request.start_at, end_at: request.end_at }),
        last_action(BookingState::Requested, events.take(3), request, window)
            == BookingAction::InsertReservation,
        last_action(BookingState::Requested, events.take(4), request, window)
            == (BookingAction::InvalidateOwnerList { owner_id: request.owner_id }),
        last_action(BookingState::Requested, events.take(5), request, window)
            == BookingAction::Commit,
        last_action(BookingState::Requested, events.take(6), request, window)
            == BookingAction::Respond,
{
    let start = BookingState::Requested;
    lemma_progress(events, request, window);
    assert(events.take(6) =~= events);
    assert(events.take(6).drop_last() =~= events.take(5));
    assert(events.take(5).drop_last() =~= events.take(4));
    assert(events.take(4).drop_last() =~= events.take(3));
    assert(events.take(3).drop_last() =~= events.take(2));
    assert(events.take(2).drop_last() =~= events.take(1));
    assert(events.take(1).drop_last() =~= Seq::<BookingEventView>::empty());
    lemma_progress(events.take(5), request, window);
    lemma_progress(events.take(4), request, window);
    lemma_progress(events.take(3), request, window);
    lemma_progress(events.take(2), request, window);
    lemma_progress(events.take(1), request, window);
    assert(state_after(start, Seq::<BookingEventView>::empty(), request, window) == start);
    assert(events.take(2)[1] == events[1]);
}

} // verus!
