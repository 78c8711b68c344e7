use isupipe::booking::{BookingError, BookingWindow, ReservationSlot};
use isupipe::flow::{advance, BookingAction, BookingEvent, BookingRequest, BookingState};

const T0: i64 = 1_700_874_000;

fn window() -> BookingWindow {
    BookingWindow { start_at: T0, end_at: 1_732_496_400 }
}

fn request() -> BookingRequest {
    BookingRequest { owner_id: 7, start_at: T0, end_at: T0 + 7200 }
}

fn slot(start_at: i64, slot: i64) -> ReservationSlot {
    ReservationSlot { start_at, end_at: start_at + 3600, slot }
}

#[test]
fn a_booking_runs_through_its_steps_in_order() {
    let locked = BookingEvent::SlotsLocked(vec![slot(T0, 1), slot(T0 + 3600, 3)]);
    let done = BookingEvent::Done;
    let step = advance(BookingState::Requested, &BookingEvent::Begun, request(), window());
    assert_eq!(
        step,
        (BookingState::Locking, BookingAction::LockSlots { start_at: T0, end_at: T0 + 7200 })
    );
    let step = advance(step.0, &locked, request(), window());
    assert_eq!(
        step,
        (BookingState::Taking, BookingAction::TakeCapacity { start_at: T0, end_at: T0 + 7200 })
    );
    let step = advance(step.0, &done, request(), window());
    assert_eq!(step, (BookingState::Inserting, BookingAction::InsertReservation));
    let step = advance(step.0, &done, request(), window());
    assert_eq!(
        step,
        (BookingState::Invalidating, BookingAction::InvalidateOwnerList { owner_id: 7 })
    );
    let step = advance(step.0, &done, request(), window());
    assert_eq!(step, (BookingState::Committing, BookingAction::Commit));
    let step = advance(step.0, &done, request(), window());
    assert_eq!(step, (BookingState::Booked, BookingAction::Respond));
}

#[test]
fn a_range_outside_the_term_is_refused_before_any_lock() {
    let early = BookingRequest { owner_id: 7, start_at: T0 - 7200, end_at: T0 - 3600 };
    let step = advance(BookingState::Requested, &BookingEvent::Begun, early, window());
    assert_eq!(step, (BookingState::Refused, BookingAction::Refuse(BookingError::OutOfTerm)));
}

#[test]
fn a_sold_out_slot_is_refused_before_any_write() {
    let locked = BookingEvent::SlotsLocked(vec![slot(T0, 2), slot(T0 + 3600, 0)]);
    let step = advance(BookingState::Locking, &locked, request(), window());
    assert_eq!(step, (BookingState::Refused, BookingAction::Refuse(BookingError::SoldOut)));
}

#[test]
fn a_range_without_slots_has_capacity() {
    let locked = BookingEvent::SlotsLocked(Vec::new());
    let step = advance(BookingState::Locking, &locked, request(), window());
    assert_eq!(step.0, BookingState::Taking);
}

#[test]
fn a_report_that_does_not_fit_the_state_aborts() {
    let done = BookingEvent::Done;
    let locked = BookingEvent::SlotsLocked(vec![slot(T0, 1)]);
    let abort = (BookingState::Refused, BookingAction::Abort);
    assert_eq!(advance(BookingState::Requested, &done, request(), window()), abort);
    assert_eq!(advance(BookingState::Locking, &done, request(), window()), abort);
    assert_eq!(advance(BookingState::Locking, &BookingEvent::Begun, request(), window()), abort);
    assert_eq!(advance(BookingState::Taking, &locked, request(), window()), abort);
    assert_eq!(advance(BookingState::Booked, &done, request(), window()), abort);
    assert_eq!(advance(BookingState::Refused, &BookingEvent::Begun, request(), window()), abort);
}
