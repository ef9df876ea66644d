//! The per-port trigger: a pair of counters that lets the first signal of a
//! cycle through and swallows the rest.

use crate::edge::DirectedEdge;
use crate::graph::EdgeId;
use crate::list::UpdateList;
use crate::model::TriggerState;
use vstd::prelude::*;

verus! {

/// What a port keeps of the trigger that was registered for it: the place of
/// the trigger in its update list, or nothing for a port without a trigger.
#[derive(Clone, Copy, Debug, PartialEq, Eq, Hash)]
pub struct TriggerHandle {
    slot: Option<usize>,
}

impl View for TriggerHandle {
    type V = Option<int>;

    closed spec fn view(&self) -> Option<int> {
        match self.slot {
            Some(slot) => Some(slot as int),
            None => None,
        }
    }
}

impl TriggerHandle {
    /// The handle of a port without a trigger.
    pub fn null() -> (handle: TriggerHandle)
        ensures
            handle@ is None,
    {
        TriggerHandle { slot: None }
    }

    /// Whether this is the handle of a port without a trigger.
    pub fn is_null(&self) -> (null: bool)
        ensures
            null == (self@ is None),
    {
        self.slot.is_none()
    }

    pub(crate) fn at(slot: usize) -> (handle: TriggerHandle)
        ensures
            handle@ == Some(slot as int),
    {
        TriggerHandle { slot: Some(slot) }
    }

    pub(crate) fn slot(&self) -> (slot: Option<usize>)
        ensures
            self@ == match slot {
                Some(at) => Some(at as int),
                None => None,
            },
    {
        self.slot
    }
}

/// The debouncing state of one port of one edge.
pub struct UpdateTrigger {
    index: EdgeId,
    version: usize,
    prev_version: usize,
}

impl View for UpdateTrigger {
    type V = TriggerState;

    closed spec fn view(&self) -> TriggerState {
        TriggerState {
            edge: self.index,
            version: self.version as nat,
            prev_version: self.prev_version as nat,
        }
    }
}

impl UpdateTrigger {
    #[verifier::type_invariant]
    spec fn sound(self) -> bool {
        self@.inv()
    }

    /// A trigger for the edge `index` that has delivered nothing yet.
    pub fn create(index: EdgeId) -> (trigger: UpdateTrigger)
        ensures
            trigger@ == TriggerState::fresh(index),
    {
        UpdateTrigger { index, version: 0, prev_version: 0 }
    }

    /// Enters the next scheduling cycle: what was delivered so far becomes
    /// the baseline, and the trigger is armed again.
    pub fn trigger_version(&mut self)
        ensures
            final(self)@ == old(self)@.advanced(),
    {
        self.prev_version = self.version;
    }

    /// The edge that the trigger watches.
    pub fn index(&self) -> (edge: EdgeId)
        ensures
            edge == self@.edge,
    {
        self.index
    }

    /// How many notifications the trigger has delivered.
    pub fn version(&self) -> (version: usize)
        ensures
            version == self@.version,
            self@.inv(),
    {
        proof {
            use_type_invariant(self);
        }
        self.version
    }

    /// How many notifications the trigger had delivered when the current
    /// cycle began.
    pub fn prev_version(&self) -> (version: usize)
        ensures
            version == self@.prev_version,
            self@.inv(),
    {
        proof {
            use_type_invariant(self);
        }
        self.prev_version
    }

    /// Whether the next signal will be delivered.
    pub fn is_armed(&self) -> (armed: bool)
        ensures
            armed == self@.armed(),
    {
        self.version == self.prev_version
    }

    /// Takes one signal: an armed trigger counts it and answers `true`, a
    /// trigger that has already delivered in this cycle answers `false`.
    pub(crate) fn signal(&mut self) -> (delivered: bool)
        requires
            old(self)@.armed() ==> old(self)@.version < usize::MAX,
        ensures
            delivered == old(self)@.armed(),
            final(self)@ == old(self)@.signaled(),
    {
        if self.version == self.prev_version {
            self.version += 1;
            true
        } else {
            false
        }
    }

    /// The port at the consuming end of an edge reports that the edge changed.
    ///
    /// Where `handle` names an armed trigger of `list`, the trigger counts
    /// the signal and records a `Target` tag for its edge. Where the trigger
    /// has already delivered in this cycle, or the handle is null or names no
    /// trigger of `list`, nothing changes.
    pub fn update_input(handle: &TriggerHandle, list: &mut UpdateList)
        requires
            old(list)@.countable_at(handle@),
        ensures
            final(list)@ == old(list)@.input_consumed(handle@),
            !old(list)@.holds(handle@) ==> final(list)@ == old(list)@,
    {
        match handle.slot() {
            Some(slot) => {
                if slot < list.updated_triggers.len() {
                    if list.updated_triggers[slot].signal() {
                        let index = list.updated_triggers[slot].index();
                        list.update_edge(DirectedEdge::Target(index));
                        assert(list@.triggers =~= old(list)@.input_consumed(handle@).triggers);
                    } else {
                        assert(list@.triggers =~= old(list)@.triggers);
                    }
                }
            },
            None => {},
        }
    }

    /// The port at the producing end of an edge reports that the edge changed.
    ///
    /// Where `handle` names an armed trigger of `list`, the trigger counts
    /// the signal and records a `Source` tag for its edge. Where the trigger
    /// has already delivered in this cycle, or the handle is null or names no
    /// trigger of `list`, nothing changes.
    pub fn update_output(handle: &TriggerHandle, list: &mut UpdateList)
        requires
            old(list)@.countable_at(handle@),
        ensures
            final(list)@ == old(list)@.output_produced(handle@),
            !old(list)@.holds(handle@) ==> final(list)@ == old(list)@,
    {
        match handle.slot() {
            Some(slot) => {
                if slot < list.updated_triggers.len() {
                    if list.updated_triggers[slot].signal() {
                        let index = list.updated_triggers[slot].index();
                        list.update_edge(DirectedEdge::Source(index));
                        assert(list@.triggers =~= old(list)@.output_produced(handle@).triggers);
                    } else {
                        assert(list@.triggers =~= old(list)@.triggers);
                    }
                }
            },
            None => {},
        }
    }
}

} // verus!
