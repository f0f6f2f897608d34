//! Rebuilding a creator's events as of a point in its history.
use vstd::prelude::*;
use uuid::Uuid;

use crate::events::types::Event;
use crate::identity::same_uuid;

verus! {

/// The events of `es` that concern creator `id`, in order.
pub open spec fn events_of(es: Seq<Event>, id: Uuid) -> Seq<Event>
    decreases es.len(),
{
    if es.len() == 0 {
        seq![]
    } else {
        let before = events_of(es.drop_last(), id);
        if es.last().aggregate() == id {
            before.push(es.last())
        } else {
            before
        }
    }
}

/// The first `n` of `es`, none for a negative `n`.
pub open spec fn first_n(es: Seq<Event>, n: int) -> Seq<Event> {
    if n <= 0 {
        seq![]
    } else if n >= es.len() {
        es
    } else {
        es.take(n)
    }
}

/// The events that a replay as of sequence number `up_to` uses: all of the
/// creator's stored events when the cap reaches their number, else the first
/// `up_to` of the creator's events in the full replay.
pub open spec fn events_as_of(stored: Seq<Event>, replayed: Seq<Event>, id: Uuid, up_to: int) -> Seq<
    Event,
> {
    if up_to >= stored.len() {
        stored
    } else {
        first_n(events_of(replayed, id), up_to)
    }
}

/// Every event that `events_of` picks concerns the creator, and there are no
/// more of them than events.
proof fn lemma_events_of(es: Seq<Event>, id: Uuid)
    ensures
        events_of(es, id).len() <= es.len(),
        forall|k: int| 0 <= k < events_of(es, id).len() ==> #[trigger] events_of(es, id)[k].aggregate() == id,
    decreases es.len(),
{
    if es.len() > 0 {
        lemma_events_of(es.drop_last(), id);
    }
}

/// A replay capped below the number of stored events uses only events of
/// the creator, at most `up_to` of them, and the first ones of the
/// creator's events in the full replay, in replay order.
pub proof fn lemma_capped_replay(stored: Seq<Event>, replayed: Seq<Event>, id: Uuid, up_to: int)
    requires
        up_to < stored.len(),
    ensures
        ({
            let es = events_as_of(stored, replayed, id, up_to);
            &&& es.len() <= if up_to < 0 { 0 } else { up_to }
            &&& forall|k: int| 0 <= k < es.len() ==> #[trigger] es[k].aggregate() == id
            &&& forall|k: int| 0 <= k < es.len() ==> es[k] == events_of(replayed, id)[k]
        }),
{
    lemma_events_of(replayed, id);
}

/// A replay whose cap reaches the number of stored events uses them all.
pub proof fn lemma_uncapped_replay(stored: Seq<Event>, replayed: Seq<Event>, id: Uuid, up_to: int)
    requires
        up_to >= stored.len(),
    ensures
        events_as_of(stored, replayed, id, up_to) == stored,
{
}

/// The events that `events_of` picks are exactly the creator's events of
/// `es`, of every kind, in their order: the subsequence that keeps each
/// event whose aggregate is `id`.
pub proof fn lemma_events_of_is_creator_subsequence(es: Seq<Event>, id: Uuid)
    ensures
        events_of(es, id) == es.filter(|e: Event| e.aggregate() == id),
    decreases es.len(),
{
    reveal(Seq::filter);
    if es.len() > 0 {
        lemma_events_of_is_creator_subsequence(es.drop_last(), id);
    }
}

/// A capped replay below the number of stored events uses the first
/// `up_to` of all replayed events that concern the creator, registration
/// and tips alike, in replay order (all of them when there are fewer).
pub proof fn lemma_capped_replay_takes_first_creator_events(
    stored: Seq<Event>,
    replayed: Seq<Event>,
    id: Uuid,
    up_to: int,
)
    requires
        0 <= up_to < stored.len(),
    ensures
        ({
            let mine = replayed.filter(|e: Event| e.aggregate() == id);
            let es = events_as_of(stored, replayed, id, up_to);
            &&& es.len() == if up_to < mine.len() { up_to } else { mine.len() as int }
            &&& forall|k: int| 0 <= k < es.len() ==> es[k] == mine[k]
        }),
{
    lemma_events_of_is_creator_subsequence(replayed, id);
}

/// Replays the events of a store to rebuild creator state.
pub struct Replayer<'a, S> {
    store: &'a S,
}

impl<'a, S> Replayer<'a, S> {
    /// A replayer over `store`.
    pub fn new(store: &'a S) -> (r: Replayer<'a, S>)
        ensures
            r.store() == store,
    {
        Replayer { store }
    }

    /// The store that this replayer reads.
    pub closed spec fn store(&self) -> &'a S {
        self.store
    }

    /// The store that this replayer reads.
    pub fn event_store(&self) -> (s: &'a S)
        ensures
            s == self.store(),
    {
        self.store
    }

    /// The events to rebuild creator `creator_id` from as of sequence number
    /// `up_to_sequence`, given its stored events (`stored`) and the replay of
    /// the whole store (`replayed`).
    pub fn events_at(
        &self,
        stored: Vec<Event>,
        replayed: Vec<Event>,
        creator_id: Uuid,
        up_to_sequence: i64,
    ) -> (es: Vec<Event>)
        ensures
            es@ == events_as_of(stored@, replayed@, creator_id, up_to_sequence as int),
    {
        if up_to_sequence >= 0 && up_to_sequence as u64 >= stored.len() as u64 {
            return stored;
        }
        let mut capped: Vec<Event> = Vec::new();
        if up_to_sequence <= 0 {
            return capped;
        }
        let cap = up_to_sequence as u64;
        let total = replayed.len();
        let ghost whole = replayed@;
        let mut taken: usize = 0;
        for e in it: replayed.into_iter()
            invariant
                it.seq() == whole,
                cap == up_to_sequence,
                total == whole.len(),
                it.index() <= whole.len(),
                taken <= it.index(),
                taken as int == events_of(whole.take(it.index() as int), creator_id).len(),
                capped@ == first_n(
                    events_of(whole.take(it.index() as int), creator_id),
                    up_to_sequence as int,
                ),
        {
            let ghost before = events_of(whole.take(it.index() as int), creator_id);
            assert(whole.take(it.index() + 1).drop_last() =~= whole.take(it.index() as int));
            assert(whole.take(it.index() + 1).last() == e);
            if same_uuid(&e.aggregate_id(), &creator_id) {
                if (taken as u64) < cap {
                    capped.push(e);
                    assert(first_n(before.push(e), cap as int) =~= before.push(e));
                } else {
                    assert(first_n(before.push(e), cap as int) =~= first_n(before, cap as int));
                }
                taken = taken + 1;
            }
        }
        assert(whole.take(whole.len() as int) =~= whole);
        capped
    }
}

} // verus!
