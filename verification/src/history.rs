//! Histories of one cache: what holds of every sequence of reads and
//! invalidations, whatever the cache evicts on the way.

use vstd::prelude::*;
use crate::effect::{dropped, hit, missed, read_into, refilled};

verus! {

/// One operation on a cache, as its caller saw it.
pub enum CacheEvent<V> {
    /// A read through the cache. `fetched` is what the backing store gave for
    /// `key` at that moment, or would have given had it been asked; `None`
    /// stands for a read that failed. `returned` is what the caller got.
    Read { key: i64, fetched: Option<V>, returned: Option<V> },
    /// The invalidation of one key.
    Invalidate { key: i64 },
    /// The invalidation of every key.
    Reset,
}

impl<V> CacheEvent<V> {
    /// Whether the event is a read of `key`.
    pub open spec fn reads(self, key: i64) -> bool {
        self matches CacheEvent::Read { key: read, .. } && read == key
    }

    /// Whether the event invalidates `key`, alone or with every other key.
    pub open spec fn invalidates(self, key: i64) -> bool {
        match self {
            CacheEvent::Read { .. } => false,
            CacheEvent::Invalidate { key: dropped } => dropped == key,
            CacheEvent::Reset => true,
        }
    }
}

/// Whether `event` can lead from the entries `before` to the entries `after`.
pub open spec fn step<V>(before: Map<i64, V>, after: Map<i64, V>, event: CacheEvent<V>) -> bool {
    match event {
        CacheEvent::Read { key, fetched, returned } => if before.contains_key(key) {
            returned is Some && hit(before, after, key, returned->Some_0)
        } else {
            returned == fetched && match fetched {
                Some(value) => refilled(before, after, key, value),
                None => missed(before, after, key),
            }
        },
        CacheEvent::Invalidate { key } => dropped(before, after, key),
        CacheEvent::Reset => after == Map::<i64, V>::empty(),
    }
}

/// Whether `events` can lead a cache through `states`, one event between each
/// state and the next.
pub open spec fn run<V>(states: Seq<Map<i64, V>>, events: Seq<CacheEvent<V>>) -> bool {
    &&& states.len() == events.len() + 1
    &&& forall|i: int|
        0 <= i < events.len() ==> #[trigger] step(states[i], states[i + 1], events[i])
}

/// After a key was invalidated it stays out of the cache until it is read.
pub proof fn lemma_absent_until_read<V>(
    states: Seq<Map<i64, V>>,
    events: Seq<CacheEvent<V>>,
    key: i64,
    from: int,
    to: int,
)
    requires
        run(states, events),
        0 <= from < to <= events.len(),
        events[from].invalidates(key),
        forall|i: int| from < i < to ==> !(#[trigger] events[i]).reads(key),
    ensures
        !states[to].contains_key(key),
    decreases to - from,
{
    if to == from + 1 {
        assert(step(states[from], states[from + 1], events[from]));
    } else {
        lemma_absent_until_read(states, events, key, from, to - 1);
        assert(step(states[to - 1], states[to - 1 + 1], events[to - 1]));
        assert(!events[to - 1].reads(key));
    }
}

/// The first read of a key after its invalidation returns what the backing
/// store holds at that read, and not what the cache held before: once a key
/// is invalidated, the next read of it goes to the backing store.
pub proof fn lemma_read_after_invalidate<V>(
    states: Seq<Map<i64, V>>,
    events: Seq<CacheEvent<V>>,
    key: i64,
    invalidation: int,
    read: int,
)
    requires
        run(states, events),
        0 <= invalidation < read < events.len(),
        events[invalidation].invalidates(key),
        events[read].reads(key),
        forall|i: int| invalidation < i < read ==> !(#[trigger] events[i]).reads(key),
    ensures
        events[read]->Read_returned == events[read]->Read_fetched,
{
    lemma_absent_until_read(states, events, key, invalidation, read);
    assert(step(states[read], states[read + 1], events[read]));
}

/// Whether the entry `value` under `key` after `at` events was fetched by a
/// read among them, with no invalidation of `key` since.
pub open spec fn fetched_since_invalidation<V>(
    events: Seq<CacheEvent<V>>,
    key: i64,
    value: V,
    at: int,
) -> bool {
    exists|read: int|
        0 <= read < at && #[trigger] events[read].reads(key) && events[read]->Read_fetched
            == Some(value) && events[read]->Read_returned == Some(value) && forall|i: int|
            read < i < at ==> !(#[trigger] events[i]).invalidates(key)
}

/// Every entry of a cache that started empty was fetched from the backing
/// store by a read of its key, and the key was not invalidated since. So the
/// cache never holds a value that was read before the last invalidation of
/// its key.
pub proof fn lemma_entries_were_fetched<V>(
    states: Seq<Map<i64, V>>,
    events: Seq<CacheEvent<V>>,
    key: i64,
    at: int,
)
    requires
        run(states, events),
        states[0] == Map::<i64, V>::empty(),
        0 <= at <= events.len(),
        states[at].contains_key(key),
    ensures
        fetched_since_invalidation(events, key, states[at][key], at),
    decreases at,
{
    if at > 0 {
        let before = states[at - 1];
        let event = events[at - 1];
        assert(step(states[at - 1], states[at - 1 + 1], events[at - 1]));
        if before.contains_key(key) && before[key] == states[at][key] && !event.invalidates(key) {
            lemma_entries_were_fetched(states, events, key, at - 1);
            let read = choose|read: int|
                0 <= read < at - 1 && #[trigger] events[read].reads(key)
                    && events[read]->Read_fetched == Some(before[key])
                    && events[read]->Read_returned == Some(before[key]) && forall|i: int|
                    read < i < at - 1 ==> !(#[trigger] events[i]).invalidates(key);
            assert forall|i: int| read < i < at implies !(#[trigger] events[i]).invalidates(
                key,
            ) by {}
            assert(events[read].reads(key));
        } else {
            assert(event.reads(key));
            assert(forall|i: int| at - 1 < i < at ==> !(#[trigger] events[i]).invalidates(key));
        }
    }
}

/// What a read returns was fetched from the backing store by that read or by
/// an earlier read of the same key, with no invalidation of the key between
/// the two.
pub proof fn lemma_reads_return_fetched_values<V>(
    states: Seq<Map<i64, V>>,
    events: Seq<CacheEvent<V>>,
    read: int,
)
    requires
        run(states, events),
        states[0] == Map::<i64, V>::empty(),
        0 <= read < events.len(),
        events[read] is Read,
    ensures
        events[read]->Read_returned == events[read]->Read_fetched || (events[read]->Read_returned
            matches Some(value) && fetched_since_invalidation(
            events,
            events[read]->Read_key,
            value,
            read,
        )),
{
    assert(step(states[read], states[read + 1], events[read]));
    let key = events[read]->Read_key;
    if states[read].contains_key(key) {
        lemma_entries_were_fetched(states, events, key, read);
    }
}

/// While the backing store holds one value for a key, every read of the key
/// since its invalidation returns that value, whether the read went to the
/// store or was served from the cache: readers of one key agree.
pub proof fn lemma_reads_agree<V>(
    states: Seq<Map<i64, V>>,
    events: Seq<CacheEvent<V>>,
    key: i64,
    value: V,
    invalidation: int,
    read: int,
)
    requires
        run(states, events),
        0 <= invalidation < read < events.len(),
        events[invalidation].invalidates(key),
        events[read].reads(key),
        forall|i: int|
            invalidation < i <= read && (#[trigger] events[i]).reads(key)
                ==> events[i]->Read_fetched == Some(value),
    ensures
        events[read]->Read_returned == Some(value),
{
    lemma_holds_the_value_read(states, events, key, value, invalidation, read);
    assert(step(states[read], states[read + 1], events[read]));
}

/// While the backing store holds one value for a key, the cache holds that
/// value for the key or none, from the invalidation of the key on.
pub proof fn lemma_holds_the_value_read<V>(
    states: Seq<Map<i64, V>>,
    events: Seq<CacheEvent<V>>,
    key: i64,
    value: V,
    invalidation: int,
    at: int,
)
    requires
        run(states, events),
        0 <= invalidation < at <= events.len(),
        events[invalidation].invalidates(key),
        forall|i: int|
            invalidation < i < at && (#[trigger] events[i]).reads(key) ==> events[i]->Read_fetched
                == Some(value),
    ensures
        states[at].contains_key(key) ==> states[at][key] == value,
    decreases at - invalidation,
{
    assert(step(states[at - 1], states[at - 1 + 1], events[at - 1]));
    if at > invalidation + 1 {
        lemma_holds_the_value_read(states, events, key, value, invalidation, at - 1);
        if events[at - 1].reads(key) {
            assert(events[at - 1]->Read_fetched == Some(value));
        }
    }
}

/// Whether `event` leads from the entries `before` to the entries `after` in
/// a cache that loses nothing: one that never held more than its bound and
/// has room for what is read into it.
pub open spec fn exact_step<V>(
    before: Map<i64, V>,
    after: Map<i64, V>,
    event: CacheEvent<V>,
) -> bool {
    &&& step(before, after, event)
    &&& after == match event {
        CacheEvent::Read { key, returned, .. } => read_into(before, key, returned),
        CacheEvent::Invalidate { key } => before.remove(key),
        CacheEvent::Reset => Map::<i64, V>::empty(),
    }
}

/// Whether `events` lead a cache that loses nothing through `states`.
pub open spec fn exact_run<V>(states: Seq<Map<i64, V>>, events: Seq<CacheEvent<V>>) -> bool {
    &&& states.len() == events.len() + 1
    &&& forall|i: int|
        0 <= i < events.len() ==> #[trigger] exact_step(states[i], states[i + 1], events[i])
}

/// In a cache that loses nothing, an operation on one key leaves the entry
/// of every other key as it was, cached or not.
pub proof fn lemma_other_keys_stay<V>(
    before: Map<i64, V>,
    after: Map<i64, V>,
    event: CacheEvent<V>,
    other: i64,
)
    requires
        exact_step(before, after, event),
        match event {
            CacheEvent::Read { key, .. } => key != other,
            CacheEvent::Invalidate { key } => key != other,
            CacheEvent::Reset => false,
        },
    ensures
        after.contains_key(other) == before.contains_key(other),
        before.contains_key(other) ==> after[other] == before[other],
{
}

/// In a cache that loses nothing, a value that a read returned for a key is
/// cached under the key until the key is invalidated.
pub proof fn lemma_read_value_stays<V>(
    states: Seq<Map<i64, V>>,
    events: Seq<CacheEvent<V>>,
    key: i64,
    value: V,
    first: int,
    at: int,
)
    requires
        exact_run(states, events),
        0 <= first < at <= events.len(),
        events[first].reads(key),
        events[first]->Read_returned == Some(value),
        forall|i: int| first < i < at ==> !(#[trigger] events[i]).invalidates(key),
    ensures
        states[at].contains_key(key) && states[at][key] == value,
    decreases at - first,
{
    assert(exact_step(states[at - 1], states[at - 1 + 1], events[at - 1]));
    if at > first + 1 {
        lemma_read_value_stays(states, events, key, value, first, at - 1);
        assert(!events[at - 1].invalidates(key));
    }
}

/// In a cache that loses nothing, one read of the backing store serves every
/// later reader of the key: until the key is invalidated each of them gets
/// the value that the first got, whatever the store holds by then.
pub proof fn lemma_one_fetch_serves_all<V>(
    states: Seq<Map<i64, V>>,
    events: Seq<CacheEvent<V>>,
    key: i64,
    value: V,
    first: int,
    later: int,
)
    requires
        exact_run(states, events),
        0 <= first < later < events.len(),
        events[first].reads(key),
        events[first]->Read_returned == Some(value),
        events[later].reads(key),
        forall|i: int| first < i < later ==> !(#[trigger] events[i]).invalidates(key),
    ensures
        events[later]->Read_returned == Some(value),
{
    lemma_read_value_stays(states, events, key, value, first, later);
    assert(exact_step(states[later], states[later + 1], events[later]));
}

/// A second invalidation of a key changes nothing.
pub proof fn lemma_invalidate_twice<V>(
    first: Map<i64, V>,
    second: Map<i64, V>,
    third: Map<i64, V>,
    key: i64,
)
    requires
        dropped(first, second, key),
        dropped(second, third, key),
    ensures
        third == second,
{
}

} // verus!
