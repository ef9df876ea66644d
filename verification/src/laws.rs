//! What holds of triggers and update lists whatever is done with them.

use crate::edge::DirectedEdge;
use crate::graph::endpoints;
use crate::graph::EdgeId;
use crate::graph::NodeId;
use crate::model::Event;
use crate::model::ListState;
use crate::model::TriggerState;
use petgraph::stable_graph::StableGraph;
use vstd::prelude::*;

verus! {

/// A list without triggers is sound, and no event and no turnover of the
/// cycle makes a sound list unsound: a trigger never falls behind its
/// baseline, and never delivers more than once in a cycle.
pub proof fn soundness_is_kept(s: ListState, event: Event)
    requires
        s.inv(),
    ensures
        ListState::empty().inv(),
        s.after(event).inv(),
        s.rolled().inv(),
{
}

/// A handle, once issued, names the same trigger for good: no event and no
/// turnover of the cycle takes a trigger away, moves it to another slot or
/// gives it another edge, and a registration hands out a slot that no
/// earlier handle names.
pub proof fn handles_stay_valid(s: ListState, event: Event, slot: Option<int>, edge: EdgeId)
    requires
        s.holds(slot),
    ensures
        s.after(event).holds(slot),
        s.after(event).triggers[slot->0].edge == s.triggers[slot->0].edge,
        s.rolled().holds(slot),
        s.rolled().triggers[slot->0].edge == s.triggers[slot->0].edge,
        s.next_slot() != slot,
        s.registered(edge).holds(s.next_slot()),
        s.registered(edge).triggers[s.next_slot()->0] == TriggerState::fresh(edge),
{
}

/// Between two turnovers no event moves a trigger's baseline, and a
/// trigger's version grows by one with each signal that it delivers and with
/// nothing else.
pub proof fn deliveries_are_counted(s: ListState, events: Seq<Event>, slot: int)
    requires
        0 <= slot < s.triggers.len(),
    ensures
        s.after_all(events).triggers.len() >= s.triggers.len(),
        s.after_all(events).triggers[slot].edge == s.triggers[slot].edge,
        s.after_all(events).triggers[slot].prev_version == s.triggers[slot].prev_version,
        s.after_all(events).triggers[slot].version == s.triggers[slot].version + s.deliveries(
            events,
            slot,
        ),
    decreases events.len(),
{
    if events.len() > 0 {
        deliveries_are_counted(s, events.drop_last(), slot);
    }
}

/// Whatever happens within a cycle, in whatever order, every trigger
/// delivers at most once; and it does deliver once where at least one of the
/// events is a signal through it.
pub proof fn one_delivery_per_cycle(s: ListState, events: Seq<Event>, slot: int)
    requires
        0 <= slot < s.triggers.len(),
    ensures
        s.rolled().deliveries(events, slot) <= 1,
        s.rolled().deliveries(events, slot) == 1 <==> exists|at: int|
            0 <= at < events.len() && (#[trigger] events[at]).signals(slot),
    decreases events.len(),
{
    let start = s.rolled();
    if events.len() > 0 {
        let earlier = events.drop_last();
        one_delivery_per_cycle(s, earlier, slot);
        deliveries_are_counted(start, earlier, slot);
        if exists|at: int| 0 <= at < earlier.len() && (#[trigger] earlier[at]).signals(slot) {
            let at = choose|at: int|
                0 <= at < earlier.len() && (#[trigger] earlier[at]).signals(slot);
            assert(events[at].signals(slot));
        }
        if events.last().signals(slot) {
            assert(events[events.len() - 1].signals(slot));
        }
        if exists|at: int| 0 <= at < events.len() && (#[trigger] events[at]).signals(slot) {
            let at = choose|at: int|
                0 <= at < events.len() && (#[trigger] events[at]).signals(slot);
            if at < earlier.len() {
                assert(earlier[at].signals(slot));
            }
        }
    }
}

/// Signalling from the consuming side several times in a row is the same as
/// signalling once.
pub proof fn repeated_inputs_are_one(s: ListState, slot: Option<int>, count: nat)
    requires
        count >= 1,
    ensures
        s.inputs_consumed(slot, count) == s.input_consumed(slot),
    decreases count,
{
    if count > 1 {
        repeated_inputs_are_one(s, slot, (count - 1) as nat);
    } else {
        assert(s.inputs_consumed(slot, 0) == s);
    }
}

/// Signalling from the producing side several times in a row is the same as
/// signalling once.
pub proof fn repeated_outputs_are_one(s: ListState, slot: Option<int>, count: nat)
    requires
        count >= 1,
    ensures
        s.outputs_produced(slot, count) == s.output_produced(slot),
    decreases count,
{
    if count > 1 {
        repeated_outputs_are_one(s, slot, (count - 1) as nat);
    } else {
        assert(s.outputs_produced(slot, 0) == s);
    }
}

/// Debounce: however often a port signals through its trigger within one
/// cycle, exactly one tag for the trigger's edge is recorded, and the trigger
/// counts one delivery.
pub proof fn signals_are_debounced(s: ListState, slot: Option<int>, count: nat)
    requires
        s.holds(slot),
        count >= 1,
    ensures
        s.rolled().inputs_consumed(slot, count).dirty == seq![
            DirectedEdge::Target(s.triggers[slot->0].edge),
        ],
        s.rolled().inputs_consumed(slot, count).triggers[slot->0].version
            == s.triggers[slot->0].version + 1,
        s.rolled().outputs_produced(slot, count).dirty == seq![
            DirectedEdge::Source(s.triggers[slot->0].edge),
        ],
        s.rolled().outputs_produced(slot, count).triggers[slot->0].version
            == s.triggers[slot->0].version + 1,
{
    repeated_inputs_are_one(s.rolled(), slot, count);
    repeated_outputs_are_one(s.rolled(), slot, count);
    assert(s.rolled().input_consumed(slot).dirty =~= seq![
        DirectedEdge::Target(s.triggers[slot->0].edge),
    ]);
    assert(s.rolled().output_produced(slot).dirty =~= seq![
        DirectedEdge::Source(s.triggers[slot->0].edge),
    ]);
}

/// The same in the middle of a cycle: a trigger that has not delivered yet
/// adds exactly one tag to those already recorded, however often it is
/// signalled, and leaves every other trigger as it was.
pub proof fn armed_trigger_delivers_once(s: ListState, slot: Option<int>, count: nat)
    requires
        s.armed_at(slot),
        count >= 1,
    ensures
        s.inputs_consumed(slot, count).dirty == s.dirty.push(
            DirectedEdge::Target(s.triggers[slot->0].edge),
        ),
        s.inputs_consumed(slot, count).triggers == s.triggers.update(
            slot->0,
            s.triggers[slot->0].fired(),
        ),
        s.outputs_produced(slot, count).dirty == s.dirty.push(
            DirectedEdge::Source(s.triggers[slot->0].edge),
        ),
        s.outputs_produced(slot, count).triggers == s.triggers.update(
            slot->0,
            s.triggers[slot->0].fired(),
        ),
{
    repeated_inputs_are_one(s, slot, count);
    repeated_outputs_are_one(s, slot, count);
}

/// Re-arming: when the cycle turns over, every trigger is armed again,
/// whether or not it delivered in the cycle that ended, and the next signal
/// through it is delivered: exactly one tag is recorded for it, however often
/// the signal is repeated.
pub proof fn turnover_rearms(s: ListState, slot: Option<int>, count: nat)
    requires
        s.holds(slot),
        count >= 1,
    ensures
        s.rolled().armed_at(slot),
        s.rolled().triggers[slot->0].version == s.triggers[slot->0].version,
        s.rolled().input_consumed(slot).dirty == seq![s.input_tag(slot)],
        s.rolled().output_produced(slot).dirty == seq![s.output_tag(slot)],
        s.rolled().input_consumed(slot).triggers[slot->0].version == s.triggers[slot->0].version
            + 1,
        s.rolled().output_produced(slot).triggers[slot->0].version == s.triggers[slot->0].version
            + 1,
        s.rolled().inputs_consumed(slot, count) == s.rolled().input_consumed(slot),
        s.rolled().outputs_produced(slot, count) == s.rolled().output_produced(slot),
{
    repeated_inputs_are_one(s.rolled(), slot, count);
    repeated_outputs_are_one(s.rolled(), slot, count);
    assert(s.rolled().input_consumed(slot).dirty =~= seq![s.input_tag(slot)]);
    assert(s.rolled().output_produced(slot).dirty =~= seq![s.output_tag(slot)]);
}

/// Direction: on an edge that leaves `a` and enters `b`, the tag of a signal
/// from the consuming side has `a` as its target and `b` as its source, and
/// the tag of a signal from the producing side has `b` as its target and `a`
/// as its source.
pub proof fn tags_point_across_the_edge(
    s: ListState,
    slot: Option<int>,
    graph: &StableGraph<(), ()>,
    a: NodeId,
    b: NodeId,
)
    requires
        s.armed_at(slot),
        endpoints(graph, s.triggers[slot->0].edge) == Some((a, b)),
    ensures
        s.input_consumed(slot).dirty.last().edge() == s.triggers[slot->0].edge,
        s.input_consumed(slot).dirty.last().resolved(graph) == Some((b, a)),
        s.output_produced(slot).dirty.last().edge() == s.triggers[slot->0].edge,
        s.output_produced(slot).dirty.last().resolved(graph) == Some((a, b)),
{
}

/// A signal through the null handle, or through a handle that names no
/// trigger of the list, changes nothing: no tag is recorded and no trigger
/// moves.
pub proof fn unregistered_signal_is_ignored(s: ListState, slot: Option<int>, count: nat)
    requires
        !s.holds(slot),
    ensures
        s.input_consumed(slot) == s,
        s.output_produced(slot) == s,
        s.inputs_consumed(slot, count) == s,
        s.outputs_produced(slot, count) == s,
    decreases count,
{
    if count > 0 {
        unregistered_signal_is_ignored(s, slot, (count - 1) as nat);
    }
}

/// The tags of a list are the tags that it held before, followed by the tags
/// that the events added.
pub proof fn events_append_their_tags(s: ListState, events: Seq<Event>)
    ensures
        s.after_all(events).dirty == s.dirty + s.emitted(events),
    decreases events.len(),
{
    if events.len() > 0 {
        events_append_their_tags(s, events.drop_last());
    }
    assert(s.after_all(events).dirty =~= s.dirty + s.emitted(events));
}

/// Which tags a run of events adds, and what it makes of the triggers,
/// depends on the triggers alone: the tags that the list already holds have
/// no part in it.
pub proof fn events_ignore_earlier_tags(s: ListState, t: ListState, events: Seq<Event>)
    requires
        s.triggers == t.triggers,
    ensures
        s.after_all(events).triggers == t.after_all(events).triggers,
        s.emitted(events) == t.emitted(events),
    decreases events.len(),
{
    if events.len() > 0 {
        events_ignore_earlier_tags(s, t, events.drop_last());
    }
}

/// Cycle isolation: what is drained at the end of a cycle is what the events
/// of that cycle added, and nothing else. A tag of an earlier cycle is not
/// among them unless an event of this cycle recorded it again: two lists with
/// the same triggers, whatever tags they held when the cycle before turned
/// over, drain the same tags after the same events.
pub proof fn cycles_are_isolated(
    s: ListState,
    t: ListState,
    events: Seq<Event>,
    queue: Seq<DirectedEdge>,
)
    requires
        s.triggers == t.triggers,
    ensures
        s.rolled().dirty == Seq::<DirectedEdge>::empty(),
        s.rolled().after_all(events).dirty == s.rolled().emitted(events),
        s.rolled().after_all(events).drained_into(queue) == s.rolled().emitted(events).reverse()
            + queue,
        s.rolled().after_all(events) == t.rolled().after_all(events),
{
    events_append_their_tags(s.rolled(), events);
    assert(s.rolled().after_all(events).dirty =~= s.rolled().emitted(events));
    assert(s.rolled() == t.rolled());
}

/// Order of the drain: the tags of the cycle stand at the front of the
/// queue, the latest recorded first, and behind them what was queued before,
/// in the order it had.
pub proof fn latest_tag_is_drained_first(s: ListState, queue: Seq<DirectedEdge>)
    ensures
        s.drained_into(queue).len() == s.dirty.len() + queue.len(),
        forall|k: int|
            0 <= k < s.dirty.len() ==> #[trigger] s.drained_into(queue)[k] == s.dirty[s.dirty.len()
                - 1 - k],
        forall|k: int|
            0 <= k < queue.len() ==> #[trigger] s.drained_into(queue)[s.dirty.len() + k]
                == queue[k],
{
}

} // verus!
