//! Bookings against slot capacity: a reservation is taken only inside the
//! booking term and only where every slot bucket within its range has
//! capacity left, and then it takes one unit from each of them.

use vstd::prelude::*;
use vstd::string::*;
use crate::clock::{utc_seconds, utc_timestamp};
use crate::error::Error;
use crate::text::{decimal, integer_text};

verus! {

/// The term in which reservations can be made, `[start_at, end_at)` in
/// seconds of Unix time.
#[derive(Clone, Copy, Debug, PartialEq, Eq, Structural)]
pub struct BookingWindow {
    pub start_at: i64,
    pub end_at: i64,
}

/// One bucket of time, `[start_at, end_at)`, with the number of reservations
/// that it can still take.
#[derive(Clone, Copy, Debug, PartialEq, Eq, Structural)]
pub struct ReservationSlot {
    pub start_at: i64,
    pub end_at: i64,
    pub slot: i64,
}

/// Why a reservation was not taken.
#[derive(Clone, Copy, Debug, PartialEq, Eq, Structural)]
pub enum BookingError {
    /// The requested range has no moment in common with the booking term.
    OutOfTerm,
    /// A bucket within the requested range has no capacity left.
    SoldOut,
}

impl BookingWindow {
    /// Whether the range `[start_at, end_at)` reaches into the term.
    pub open spec fn admits(self, start_at: i64, end_at: i64) -> bool {
        !(start_at >= self.end_at || end_at <= self.start_at)
    }

    /// The window between two moments, where both are given.
    pub open spec fn between_spec(start_at: Option<i64>, end_at: Option<i64>) -> Option<
        BookingWindow,
    > {
        match (start_at, end_at) {
            (Some(start_at), Some(end_at)) => Some(BookingWindow { start_at, end_at }),
            _ => None,
        }
    }

    /// The booking term of the service: the year that begins on 25 November
    /// 2023 at 01:00 UTC.
    pub open spec fn term_spec() -> Option<BookingWindow> {
        Self::between_spec(
            utc_seconds(2023, 11, 25, 1, 0, 0),
            utc_seconds(2024, 11, 25, 1, 0, 0),
        )
    }

    /// The window between two moments, where both are given.
    #[verifier::when_used_as_spec(between_spec)]
    pub fn between(start_at: Option<i64>, end_at: Option<i64>) -> (window: Option<BookingWindow>)
        ensures
            window == Self::between_spec(start_at, end_at),
    {
        match (start_at, end_at) {
            (Some(start_at), Some(end_at)) => Some(BookingWindow { start_at, end_at }),
            _ => None,
        }
    }

    /// The booking term of the service: the year that begins on 25 November
    /// 2023 at 01:00 UTC.
    #[verifier::when_used_as_spec(term_spec)]
    pub fn term() -> (window: Option<BookingWindow>)
        ensures
            window == Self::term_spec(),
    {
        let start_at = utc_timestamp(2023, 11, 25, 1, 0, 0);
        let end_at = utc_timestamp(2024, 11, 25, 1, 0, 0);
        Self::between(start_at, end_at)
    }

    /// Accepts a requested range that reaches into the term.
    pub fn validate(&self, start_at: i64, end_at: i64) -> (decision: Result<(), BookingError>)
        ensures
            decision == if self.admits(start_at, end_at) {
                Ok::<(), BookingError>(())
            } else {
                Err(BookingError::OutOfTerm)
            },
    {
        if start_at >= self.end_at || end_at <= self.start_at {
            Err(BookingError::OutOfTerm)
        } else {
            Ok(())
        }
    }
}

impl ReservationSlot {
    /// Whether the bucket lies within the range `[start_at, end_at)`.
    pub open spec fn within(self, start_at: i64, end_at: i64) -> bool {
        self.start_at >= start_at && self.end_at <= end_at
    }

    /// Whether the bucket lies within the range `[start_at, end_at)`.
    pub fn is_within(&self, start_at: i64, end_at: i64) -> (inside: bool)
        ensures
            inside == self.within(start_at, end_at),
    {
        self.start_at >= start_at && self.end_at <= end_at
    }

    /// The bucket after one reservation was taken from it.
    pub open spec fn taken(self) -> ReservationSlot {
        ReservationSlot {
            start_at: self.start_at,
            end_at: self.end_at,
            slot: (self.slot - 1) as i64,
        }
    }
}

/// Whether every one of `slots` has capacity left.
pub open spec fn all_available(slots: Seq<ReservationSlot>) -> bool {
    forall|i: int| 0 <= i < slots.len() ==> (#[trigger] slots[i]).slot >= 1
}

/// Whether every bucket of `slots` within `[start_at, end_at)` has capacity
/// left.
pub open spec fn bookable(slots: Seq<ReservationSlot>, start_at: i64, end_at: i64) -> bool {
    forall|i: int|
        0 <= i < slots.len() && (#[trigger] slots[i]).within(start_at, end_at) ==> slots[i].slot
            >= 1
}

/// `slots` after a reservation for `[start_at, end_at)`: each bucket within
/// the range has given one unit, the others are as they were.
pub open spec fn booked(slots: Seq<ReservationSlot>, start_at: i64, end_at: i64) -> Seq<
    ReservationSlot,
> {
    Seq::new(
        slots.len(),
        |i: int|
            if slots[i].within(start_at, end_at) {
                slots[i].taken()
            } else {
                slots[i]
            },
    )
}

/// What a reservation attempt for `[start_at, end_at)` comes to on `slots`:
/// the slots after it, or the reason why nothing was booked.
pub open spec fn attempt(
    slots: Seq<ReservationSlot>,
    window: BookingWindow,
    start_at: i64,
    end_at: i64,
) -> Result<Seq<ReservationSlot>, BookingError> {
    if !window.admits(start_at, end_at) {
        Err(BookingError::OutOfTerm)
    } else if !bookable(slots, start_at, end_at) {
        Err(BookingError::SoldOut)
    } else {
        Ok(booked(slots, start_at, end_at))
    }
}

/// The text that tells a caller why a reservation for `[start_at, end_at)`
/// was not taken.
pub open spec fn rejection_text(
    reason: BookingError,
    window: BookingWindow,
    start_at: i64,
    end_at: i64,
) -> Seq<char> {
    match reason {
        BookingError::OutOfTerm => "bad reservation time range"@,
        BookingError::SoldOut => "予約期間 "@ + integer_text(window.start_at as int) + " ~ "@
            + integer_text(window.end_at as int) + "に対して、予約区間 "@ + integer_text(
            start_at as int,
        ) + " ~ "@ + integer_text(end_at as int) + "が予約できません"@,
    }
}

/// The failure that is reported for a reservation that was not taken: a bad
/// request, with a text that names the term and the requested range where a
/// bucket was sold out.
pub fn rejection(reason: BookingError, window: BookingWindow, start_at: i64, end_at: i64) -> (error:
    Error)
    ensures
        error matches Error::BadRequest(detail) && detail@ == rejection_text(
            reason,
            window,
            start_at,
            end_at,
        ),
{
    match reason {
        BookingError::OutOfTerm => Error::BadRequest(
            String::from_str("bad reservation time range"),
        ),
        BookingError::SoldOut => {
            let mut detail = String::from_str("予約期間 ");
            detail.append(decimal(window.start_at).as_str());
            detail.append(" ~ ");
            detail.append(decimal(window.end_at).as_str());
            detail.append("に対して、予約区間 ");
            detail.append(decimal(start_at).as_str());
            detail.append(" ~ ");
            detail.append(decimal(end_at).as_str());
            detail.append("が予約できません");
            Error::BadRequest(detail)
        },
    }
}

/// Whether none of `slots` has a negative capacity.
pub open spec fn never_negative(slots: Seq<ReservationSlot>) -> bool {
    forall|i: int| 0 <= i < slots.len() ==> (#[trigger] slots[i]).slot >= 0
}

/// Accepts the buckets that were locked for a reservation if each of them has
/// capacity left.
pub fn check_capacity(locked: &Vec<ReservationSlot>) -> (decision: Result<(), BookingError>)
    ensures
        decision == if all_available(locked@) {
            Ok::<(), BookingError>(())
        } else {
            Err(BookingError::SoldOut)
        },
{
    let mut i: usize = 0;
    while i < locked.len()
        invariant
            i <= locked.len(),
            forall|j: int| 0 <= j < i ==> (#[trigger] locked[j]).slot >= 1,
        decreases locked.len() - i,
    {
        if locked[i].slot < 1 {
            return Err(BookingError::SoldOut);
        }
        i += 1;
    }
    Ok(())
}

/// The slot buckets of the service with their remaining capacities.
pub struct SlotTable {
    slots: Vec<ReservationSlot>,
}

impl View for SlotTable {
    type V = Seq<ReservationSlot>;

    /// The buckets, in the order in which the table holds them.
    closed spec fn view(&self) -> Seq<ReservationSlot> {
        self.slots@
    }
}

impl SlotTable {
    /// A table of the given buckets.
    pub fn new(slots: Vec<ReservationSlot>) -> (table: SlotTable)
        ensures
            table@ == slots@,
    {
        SlotTable { slots }
    }

    /// The buckets of the table.
    pub fn slots(&self) -> (slots: &Vec<ReservationSlot>)
        ensures
            slots@ == self@,
    {
        &self.slots
    }

    /// The buckets that a reservation for `[start_at, end_at)` has to lock:
    /// those within the range, in the order of the table.
    pub fn candidates(&self, start_at: i64, end_at: i64) -> (locked: Vec<ReservationSlot>)
        ensures
            locked@ == self@.filter(|slot: ReservationSlot| slot.within(start_at, end_at)),
    {
        let ghost inside = |slot: ReservationSlot| slot.within(start_at, end_at);
        let mut locked: Vec<ReservationSlot> = Vec::new();
        let mut i: usize = 0;
        assert(self.slots@.take(0).filter(inside) =~= Seq::<ReservationSlot>::empty()) by {
            reveal(Seq::filter);
        }
        while i < self.slots.len()
            invariant
                i <= self.slots.len(),
                inside == |slot: ReservationSlot| slot.within(start_at, end_at),
                locked@ == self.slots@.take(i as int).filter(inside),
            decreases self.slots.len() - i,
        {
            let slot = self.slots[i];
            proof {
                assert(self.slots@.take(i + 1) =~= self.slots@.take(i as int).push(slot));
                self.slots@.take(i as int).lemma_filter_push(slot, inside);
            }
            if slot.is_within(start_at, end_at) {
                locked.push(slot);
            }
            i += 1;
        }
        assert(self.slots@.take(self.slots.len() as int) =~= self.slots@);
        locked
    }

    /// Takes a reservation for `[start_at, end_at)`, or none of it: where the
    /// range misses the term or a bucket within it is sold out, the table
    /// stays as it was; otherwise every bucket within the range gives one
    /// unit of capacity.
    pub fn reserve(&mut self, window: BookingWindow, start_at: i64, end_at: i64) -> (decision: Result<
        (),
        BookingError,
    >)
        ensures
            match attempt(old(self)@, window, start_at, end_at) {
                Ok(after) => decision is Ok && final(self)@ == after,
                Err(reason) => decision == Err::<(), BookingError>(reason) && final(self)@ == old(
                    self,
                )@,
            },
            never_negative(old(self)@) ==> never_negative(final(self)@),
    {
        if let Err(reason) = window.validate(start_at, end_at) {
            return Err(reason);
        }
        let locked = self.candidates(start_at, end_at);
        proof {
            lemma_candidates_available(self@, start_at, end_at);
        }
        if let Err(reason) = check_capacity(&locked) {
            return Err(reason);
        }
        let mut i: usize = 0;
        while i < self.slots.len()
            invariant
                i <= self.slots.len(),
                self.slots.len() == old(self).slots.len(),
                bookable(old(self)@, start_at, end_at),
                forall|j: int|
                    0 <= j < i ==> #[trigger] self.slots[j] == booked(
                        old(self)@,
                        start_at,
                        end_at,
                    )[j],
                forall|j: int| i <= j < self.slots.len() ==> #[trigger] self.slots[j] == old(self)@[j],
            decreases self.slots.len() - i,
        {
            let slot = self.slots[i];
            if slot.is_within(start_at, end_at) {
                assert(old(self)@[i as int].slot >= 1);
                self.slots.set(
                    i,
                    ReservationSlot {
                        start_at: slot.start_at,
                        end_at: slot.end_at,
                        slot: slot.slot - 1,
                    },
                );
            }
            i += 1;
        }
        assert(self@ =~= booked(old(self)@, start_at, end_at));
        Ok(())
    }
}

/// The buckets within a range all have capacity left exactly if the range is
/// bookable.
pub proof fn lemma_candidates_available(slots: Seq<ReservationSlot>, start_at: i64, end_at: i64)
    ensures
        all_available(slots.filter(|slot: ReservationSlot| slot.within(start_at, end_at)))
            <==> bookable(slots, start_at, end_at),
{
    let inside = |slot: ReservationSlot| slot.within(start_at, end_at);
    let locked = slots.filter(inside);
    if bookable(slots, start_at, end_at) {
        assert forall|i: int| 0 <= i < locked.len() implies (#[trigger] locked[i]).slot >= 1 by {
            slots.lemma_filter_pred(inside, i);
            assert(locked.contains(locked[i]));
            slots.lemma_filter_contains_rev(inside, locked[i]);
            let j = choose|j: int| 0 <= j < slots.len() && slots[j] == locked[i];
            assert(slots[j].within(start_at, end_at));
        }
    }
    if all_available(locked) {
        assert forall|i: int|
            0 <= i < slots.len() && (#[trigger] slots[i]).within(start_at, end_at) implies slots[i].slot
            >= 1 by {
            assert(inside(slots[i]));
            slots.lemma_filter_contains(inside, i);
            let j = choose|j: int| 0 <= j < locked.len() && locked[j] == slots[i];
            assert(locked[j].slot >= 1);
        }
    }
}

/// `slots` after the reservation attempts for the ranges of `requests`, made
/// one after the other as the row locks order them.
pub open spec fn replay(
    slots: Seq<ReservationSlot>,
    window: BookingWindow,
    requests: Seq<(i64, i64)>,
) -> Seq<ReservationSlot>
    decreases requests.len(),
{
    if requests.len() == 0 {
        slots
    } else {
        let earlier = replay(slots, window, requests.drop_last());
        match attempt(earlier, window, requests.last().0, requests.last().1) {
            Ok(after) => after,
            Err(_) => earlier,
        }
    }
}

/// The number of attempts among `requests` that succeeded with the bucket at
/// `index` within their range.
pub open spec fn granted(
    slots: Seq<ReservationSlot>,
    window: BookingWindow,
    requests: Seq<(i64, i64)>,
    index: int,
) -> nat
    decreases requests.len(),
{
    if requests.len() == 0 {
        0
    } else {
        let earlier = replay(slots, window, requests.drop_last());
        let range = requests.last();
        let before = granted(slots, window, requests.drop_last(), index);
        if attempt(earlier, window, range.0, range.1) is Ok && earlier[index].within(
            range.0,
            range.1,
        ) {
            before + 1
        } else {
            before
        }
    }
}

/// No overbooking: after any sequence of attempts a bucket has given exactly
/// one unit to each attempt that succeeded with the bucket within its range,
/// and to no other. A bucket that started with a capacity of at least zero
/// never goes below zero, so no more attempts succeed on it than it had
/// capacity.
pub proof fn lemma_no_overbooking(
    slots: Seq<ReservationSlot>,
    window: BookingWindow,
    requests: Seq<(i64, i64)>,
    index: int,
)
    requires
        0 <= index < slots.len(),
    ensures
        replay(slots, window, requests).len() == slots.len(),
        replay(slots, window, requests)[index].start_at == slots[index].start_at,
        replay(slots, window, requests)[index].end_at == slots[index].end_at,
        slots[index].slot >= 0 ==> replay(slots, window, requests)[index].slot
            == slots[index].slot - granted(slots, window, requests, index),
        slots[index].slot >= 0 ==> replay(slots, window, requests)[index].slot >= 0,
        slots[index].slot >= 0 ==> granted(slots, window, requests, index) <= slots[index].slot,
    decreases requests.len(),
{
    if requests.len() > 0 {
        lemma_no_overbooking(slots, window, requests.drop_last(), index);
    }
}

/// Atomic booking: an attempt either takes one unit from every bucket within
/// its range, or leaves every bucket as it was.
pub proof fn lemma_all_or_nothing(
    slots: Seq<ReservationSlot>,
    window: BookingWindow,
    start_at: i64,
    end_at: i64,
)
    ensures
        match attempt(slots, window, start_at, end_at) {
            Ok(after) => after.len() == slots.len() && forall|i: int|
                0 <= i < slots.len() ==> #[trigger] after[i] == if slots[i].within(
                    start_at,
                    end_at,
                ) {
                    slots[i].taken()
                } else {
                    slots[i]
                },
            Err(_) => replay(slots, window, seq![(start_at, end_at)]) == slots,
        },
        attempt(slots, window, start_at, end_at) is Ok ==> forall|i: int|
            0 <= i < slots.len() && (#[trigger] slots[i]).within(start_at, end_at)
                ==> slots[i].taken().slot == slots[i].slot - 1,
{
    assert(seq![(start_at, end_at)].drop_last() =~= Seq::<(i64, i64)>::empty());
    assert(replay(slots, window, Seq::<(i64, i64)>::empty()) == slots);
}

} // verus!
