//! Triggers and update lists as mathematical values, and what each operation
//! makes of them. The contracts of the executable types are stated over these.

use crate::edge::DirectedEdge;
use crate::graph::EdgeId;
use vstd::prelude::*;

verus! {

/// What a trigger knows: its edge, how many notifications it has delivered,
/// and how many it had delivered when the current cycle began.
pub struct TriggerState {
    pub edge: EdgeId,
    pub version: nat,
    pub prev_version: nat,
}

impl TriggerState {
    /// A trigger that has delivered nothing yet.
    pub open spec fn fresh(edge: EdgeId) -> TriggerState {
        TriggerState { edge, version: 0, prev_version: 0 }
    }

    /// Armed: nothing was delivered in the current cycle.
    pub open spec fn armed(self) -> bool {
        self.version == self.prev_version
    }

    /// A trigger never falls behind its baseline, and delivers at most once
    /// per cycle.
    pub open spec fn inv(self) -> bool {
        self.prev_version <= self.version <= self.prev_version + 1
    }

    /// The trigger after one delivery.
    pub open spec fn fired(self) -> TriggerState {
        TriggerState { version: self.version + 1, ..self }
    }

    /// The trigger after a signal: a delivery where it was armed, no change
    /// where it was not.
    pub open spec fn signaled(self) -> TriggerState {
        if self.armed() {
            self.fired()
        } else {
            self
        }
    }

    /// The trigger at the start of the next cycle.
    pub open spec fn advanced(self) -> TriggerState {
        TriggerState { prev_version: self.version, ..self }
    }
}

/// What can happen to an update list between two turnovers of the cycle.
pub enum Event {
    /// A tag is recorded directly.
    Record(DirectedEdge),
    /// A trigger is registered for an edge.
    Register(EdgeId),
    /// The consuming side signals through a slot.
    InputConsumed(Option<int>),
    /// The producing side signals through a slot.
    OutputProduced(Option<int>),
}

impl Event {
    /// Whether the event is a signal, from either side, through the trigger
    /// at `slot`.
    pub open spec fn signals(self, slot: int) -> bool {
        self == Event::InputConsumed(Some(slot)) || self == Event::OutputProduced(Some(slot))
    }
}

/// What an update list holds: the tags recorded in the current cycle, oldest
/// first, and every trigger ever registered, in the order of registration.
pub struct ListState {
    pub dirty: Seq<DirectedEdge>,
    pub triggers: Seq<TriggerState>,
}

impl ListState {
    /// A list without tags and without triggers.
    pub open spec fn empty() -> ListState {
        ListState { dirty: Seq::empty(), triggers: Seq::empty() }
    }

    /// Every registered trigger is sound.
    pub open spec fn inv(self) -> bool {
        forall|i: int| 0 <= i < self.triggers.len() ==> (#[trigger] self.triggers[i]).inv()
    }

    /// Whether `slot` names a trigger of this list. The null handle, `None`,
    /// names none.
    pub open spec fn holds(self, slot: Option<int>) -> bool {
        slot is Some && 0 <= slot->0 < self.triggers.len()
    }

    /// Whether `slot` names a trigger of this list that is armed.
    pub open spec fn armed_at(self, slot: Option<int>) -> bool {
        self.holds(slot) && self.triggers[slot->0].armed()
    }

    /// Whether a signal through `slot` stays within what the version counter
    /// can count.
    pub open spec fn countable_at(self, slot: Option<int>) -> bool {
        self.armed_at(slot) ==> self.triggers[slot->0].version < usize::MAX
    }

    /// The list after `tag` was recorded.
    pub open spec fn recorded(self, tag: DirectedEdge) -> ListState {
        ListState { dirty: self.dirty.push(tag), ..self }
    }

    /// The list after a trigger for `edge` was registered.
    pub open spec fn registered(self, edge: EdgeId) -> ListState {
        ListState { triggers: self.triggers.push(TriggerState::fresh(edge)), ..self }
    }

    /// The slot that the next registration hands out.
    pub open spec fn next_slot(self) -> Option<int> {
        Some(self.triggers.len() as int)
    }

    /// The tag that a signal from the consuming side of `slot`'s edge carries.
    pub open spec fn input_tag(self, slot: Option<int>) -> DirectedEdge
        recommends
            self.holds(slot),
    {
        DirectedEdge::Target(self.triggers[slot->0].edge)
    }

    /// The tag that a signal from the producing side of `slot`'s edge carries.
    pub open spec fn output_tag(self, slot: Option<int>) -> DirectedEdge
        recommends
            self.holds(slot),
    {
        DirectedEdge::Source(self.triggers[slot->0].edge)
    }

    /// The list after the trigger at `slot` delivered `tag`.
    pub open spec fn delivered(self, slot: Option<int>, tag: DirectedEdge) -> ListState
        recommends
            self.holds(slot),
    {
        ListState {
            dirty: self.dirty.push(tag),
            triggers: self.triggers.update(slot->0, self.triggers[slot->0].fired()),
        }
    }

    /// The list after the consuming side signalled through `slot`: where the
    /// slot names an armed trigger, the trigger delivers its `Target` tag;
    /// otherwise nothing changes.
    pub open spec fn input_consumed(self, slot: Option<int>) -> ListState {
        if self.armed_at(slot) {
            self.delivered(slot, self.input_tag(slot))
        } else {
            self
        }
    }

    /// The list after the producing side signalled through `slot`: where the
    /// slot names an armed trigger, the trigger delivers its `Source` tag;
    /// otherwise nothing changes.
    pub open spec fn output_produced(self, slot: Option<int>) -> ListState {
        if self.armed_at(slot) {
            self.delivered(slot, self.output_tag(slot))
        } else {
            self
        }
    }

    /// The list at the start of the next cycle: no tags, every trigger armed.
    pub open spec fn rolled(self) -> ListState {
        ListState {
            dirty: Seq::empty(),
            triggers: Seq::new(self.triggers.len(), |i: int| self.triggers[i].advanced()),
        }
    }

    /// The scheduler's queue after the cycle's tags were drained into it: the
    /// tags stand in front of what was queued before, the latest tag first.
    pub open spec fn drained_into(self, queue: Seq<DirectedEdge>) -> Seq<DirectedEdge> {
        self.dirty.reverse() + queue
    }

    /// The list after `event`.
    pub open spec fn after(self, event: Event) -> ListState {
        match event {
            Event::Record(tag) => self.recorded(tag),
            Event::Register(edge) => self.registered(edge),
            Event::InputConsumed(slot) => self.input_consumed(slot),
            Event::OutputProduced(slot) => self.output_produced(slot),
        }
    }

    /// The tag that `event` adds to the list, if it adds one.
    pub open spec fn emits(self, event: Event) -> Option<DirectedEdge> {
        match event {
            Event::Record(tag) => Some(tag),
            Event::Register(_) => None,
            Event::InputConsumed(slot) => if self.armed_at(slot) {
                Some(self.input_tag(slot))
            } else {
                None
            },
            Event::OutputProduced(slot) => if self.armed_at(slot) {
                Some(self.output_tag(slot))
            } else {
                None
            },
        }
    }

    /// The list after `events`, the first of them first.
    pub open spec fn after_all(self, events: Seq<Event>) -> ListState
        decreases events.len(),
    {
        if events.len() == 0 {
            self
        } else {
            self.after_all(events.drop_last()).after(events.last())
        }
    }

    /// The tags that `events` add to the list, in the order in which they
    /// are added.
    pub open spec fn emitted(self, events: Seq<Event>) -> Seq<DirectedEdge>
        decreases events.len(),
    {
        if events.len() == 0 {
            Seq::empty()
        } else {
            let earlier = self.emitted(events.drop_last());
            match self.after_all(events.drop_last()).emits(events.last()) {
                Some(tag) => earlier.push(tag),
                None => earlier,
            }
        }
    }

    /// How many of `events` are signals through the trigger at `slot` that
    /// the trigger delivers.
    pub open spec fn deliveries(self, events: Seq<Event>, slot: int) -> nat
        decreases events.len(),
    {
        if events.len() == 0 {
            0
        } else {
            let earlier = self.deliveries(events.drop_last(), slot);
            if events.last().signals(slot) && self.after_all(events.drop_last()).armed_at(
                Some(slot),
            ) {
                earlier + 1
            } else {
                earlier
            }
        }
    }

    /// The list after `count` signals from the consuming side through `slot`.
    pub open spec fn inputs_consumed(self, slot: Option<int>, count: nat) -> ListState
        decreases count,
    {
        if count == 0 {
            self
        } else {
            self.inputs_consumed(slot, (count - 1) as nat).input_consumed(slot)
        }
    }

    /// The list after `count` signals from the producing side through `slot`.
    pub open spec fn outputs_produced(self, slot: Option<int>, count: nat) -> ListState
        decreases count,
    {
        if count == 0 {
            self
        } else {
            self.outputs_produced(slot, (count - 1) as nat).output_produced(slot)
        }
    }
}

} // verus!
