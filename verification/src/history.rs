//! What a whole run of events amounts to: the gauges it leaves and the
//! records it produces, and the laws that hold of every run.

use vstd::prelude::*;
use crate::logging::LogView;
use crate::metrics::{wrapping_pred, wrapping_succ, Snapshot};
use crate::plugin::{gauges_after, record_of, Event};

verus! {

/// The gauges after a run of events, handled one after the other.
pub open spec fn gauges_after_all(gauges: Snapshot, events: Seq<Event>) -> Snapshot
    decreases events.len(),
{
    if events.len() == 0 {
        gauges
    } else {
        gauges_after(gauges_after_all(gauges, events.drop_last()), events.last())
    }
}

/// How many of the events are joins.
pub open spec fn joins(events: Seq<Event>) -> nat
    decreases events.len(),
{
    if events.len() == 0 {
        0
    } else if events.last() is PlayerJoin {
        joins(events.drop_last()) + 1
    } else {
        joins(events.drop_last())
    }
}

/// How many of the events are leaves.
pub open spec fn leaves(events: Seq<Event>) -> nat
    decreases events.len(),
{
    if events.len() == 0 {
        0
    } else if events.last() is PlayerLeave {
        leaves(events.drop_last()) + 1
    } else {
        leaves(events.drop_last())
    }
}

/// How many of the events are ticks.
pub open spec fn ticks(events: Seq<Event>) -> nat
    decreases events.len(),
{
    if events.len() == 0 {
        0
    } else if events.last() is Tick {
        ticks(events.drop_last()) + 1
    } else {
        ticks(events.drop_last())
    }
}

/// The `i64` that an integer comes to when it is counted in a gauge, which
/// wraps around at both ends of its range.
pub open spec fn wrapped(value: int) -> i64 {
    ((value + 0x8000_0000_0000_0000) % 0x1_0000_0000_0000_0000 - 0x8000_0000_0000_0000) as i64
}

/// The records that a run of events produces, in the order in which the
/// events are handled. Each event comes with the clock reading at which it is
/// handled.
pub open spec fn records(arrivals: Seq<(Event, u64)>) -> Seq<LogView>
    decreases arrivals.len(),
{
    if arrivals.len() == 0 {
        Seq::empty()
    } else {
        match record_of(arrivals.last().0, arrivals.last().1) {
            Some(record) => records(arrivals.drop_last()).push(record),
            None => records(arrivals.drop_last()),
        }
    }
}

/// The events of a run, without their clock readings.
pub open spec fn events_of(arrivals: Seq<(Event, u64)>) -> Seq<Event> {
    arrivals.map_values(|arrival: (Event, u64)| arrival.0)
}

/// `merged` is one of the orders in which the events of two callers can
/// reach the bridge: each caller's events keep their own order, and nothing
/// is lost or doubled.
pub open spec fn is_interleaving(merged: Seq<Event>, one: Seq<Event>, other: Seq<Event>) -> bool
    decreases merged.len(),
{
    if merged.len() == 0 {
        one.len() == 0 && other.len() == 0
    } else {
        ||| {
            &&& one.len() > 0
            &&& one.last() == merged.last()
            &&& is_interleaving(merged.drop_last(), one.drop_last(), other)
        }
        ||| {
            &&& other.len() > 0
            &&& other.last() == merged.last()
            &&& is_interleaving(merged.drop_last(), one, other.drop_last())
        }
    }
}

/// Counting in a gauge agrees with counting in the integers: a value within
/// the range of the gauge stands for itself, and one step in the gauge is one
/// step in the integers.
pub proof fn lemma_wrapped(value: int)
    ensures
        i64::MIN <= value <= i64::MAX ==> wrapped(value) == value,
        wrapping_succ(wrapped(value)) == wrapped(value + 1),
        wrapping_pred(wrapped(value)) == wrapped(value - 1),
{
}

/// The player count is linear in the events: after any run of events it is
/// the count before the run plus the joins minus the leaves of the run,
/// counted in the gauge. Chat messages and ticks do not move it. While the
/// net count stays within the range of the gauge, it is that number itself.
pub proof fn lemma_player_count_is_net(start: Snapshot, events: Seq<Event>)
    ensures
        gauges_after_all(start, events).player_count == wrapped(
            start.player_count + joins(events) - leaves(events),
        ),
        i64::MIN <= start.player_count + joins(events) - leaves(events) <= i64::MAX
            ==> gauges_after_all(start, events).player_count == start.player_count + joins(events)
            - leaves(events),
    decreases events.len(),
{
    if events.len() > 0 {
        let earlier = events.drop_last();
        lemma_player_count_is_net(start, earlier);
        lemma_wrapped(start.player_count + joins(earlier) - leaves(earlier));
    }
}

/// An interleaving of two callers' events holds the joins of both and the
/// leaves of both, each once.
pub proof fn lemma_interleaving_keeps_counts(
    merged: Seq<Event>,
    one: Seq<Event>,
    other: Seq<Event>,
)
    requires
        is_interleaving(merged, one, other),
    ensures
        joins(merged) == joins(one) + joins(other),
        leaves(merged) == leaves(one) + leaves(other),
    decreases merged.len(),
{
    if merged.len() > 0 {
        if one.len() > 0 && one.last() == merged.last() && is_interleaving(
            merged.drop_last(),
            one.drop_last(),
            other,
        ) {
            lemma_interleaving_keeps_counts(merged.drop_last(), one.drop_last(), other);
        } else {
            lemma_interleaving_keeps_counts(merged.drop_last(), one, other.drop_last());
        }
    }
}

/// The player count does not depend on the interleaving: in whatever order
/// the events of two callers reach the bridge, the count ends at the count
/// before plus the joins minus the leaves of both callers. No increment is
/// lost and none is doubled.
pub proof fn lemma_player_count_ignores_interleaving(
    start: Snapshot,
    merged: Seq<Event>,
    one: Seq<Event>,
    other: Seq<Event>,
)
    requires
        is_interleaving(merged, one, other),
    ensures
        gauges_after_all(start, merged).player_count == wrapped(
            start.player_count + joins(one) + joins(other) - leaves(one) - leaves(other),
        ),
{
    lemma_interleaving_keeps_counts(merged, one, other);
    lemma_player_count_is_net(start, merged);
}

/// Events are handled one by one and on their own: a run that follows another
/// starts from the gauges the first one left and is otherwise untouched by
/// it. What became of the records of earlier events is no input to any later
/// event.
pub proof fn lemma_gauges_compose(start: Snapshot, earlier: Seq<Event>, later: Seq<Event>)
    ensures
        gauges_after_all(start, earlier + later) == gauges_after_all(
            gauges_after_all(start, earlier),
            later,
        ),
    decreases later.len(),
{
    if later.len() > 0 {
        lemma_gauges_compose(start, earlier, later.drop_last());
        assert((earlier + later).drop_last() =~= earlier + later.drop_last());
    }
}

/// The records of a run that follows another are the records of the first,
/// then the records of the second: no event adds to, drops or changes the
/// record of another.
pub proof fn lemma_records_compose(earlier: Seq<(Event, u64)>, later: Seq<(Event, u64)>)
    ensures
        records(earlier + later) == records(earlier) + records(later),
    decreases later.len(),
{
    if later.len() > 0 {
        lemma_records_compose(earlier, later.drop_last());
        assert((earlier + later).drop_last() =~= earlier + later.drop_last());
    }
}

/// A tick leaves no record, whenever it is handled, and a tick is the only
/// event that leaves none.
pub proof fn lemma_only_ticks_are_silent(event: Event, timestamp: u64)
    ensures
        record_of(event, timestamp) is None <==> event is Tick,
{
}

/// Every event but a tick leaves exactly one record: a run produces as many
/// records as it has events that are not ticks.
pub proof fn lemma_one_record_per_logged_event(arrivals: Seq<(Event, u64)>)
    ensures
        records(arrivals).len() == arrivals.len() - ticks(events_of(arrivals)),
    decreases arrivals.len(),
{
    if arrivals.len() > 0 {
        lemma_one_record_per_logged_event(arrivals.drop_last());
        assert(events_of(arrivals).drop_last() =~= events_of(arrivals.drop_last()));
    }
}

/// A run of ticks, however long, produces no record at all.
pub proof fn lemma_ticks_leave_no_record(arrivals: Seq<(Event, u64)>)
    requires
        forall|i: int| 0 <= i < arrivals.len() ==> (#[trigger] arrivals[i]).0 is Tick,
    ensures
        records(arrivals) == Seq::<LogView>::empty(),
    decreases arrivals.len(),
{
    if arrivals.len() > 0 {
        lemma_ticks_leave_no_record(arrivals.drop_last());
    }
}

} // verus!
