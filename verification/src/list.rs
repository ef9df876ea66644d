//! The per-graph registry of triggers and of the tags that they delivered in
//! the current cycle.

use crate::edge::DirectedEdge;
use crate::graph::EdgeId;
use crate::model::ListState;
use crate::trigger::TriggerHandle;
use crate::trigger::UpdateTrigger;
use std::collections::VecDeque;
use vstd::prelude::*;

verus! {

/// The triggers of one execution graph, and the edges that they reported
/// since the last cycle turned over.
pub struct UpdateList {
    pub(crate) updated_edges: Vec<DirectedEdge>,
    pub(crate) updated_triggers: Vec<UpdateTrigger>,
}

impl View for UpdateList {
    type V = ListState;

    open(crate) spec fn view(&self) -> ListState {
        ListState {
            dirty: self.updated_edges@,
            triggers: Seq::new(
                self.updated_triggers@.len(),
                |i: int| self.updated_triggers@[i]@,
            ),
        }
    }
}

impl UpdateList {
    /// A list without triggers and without tags.
    pub fn create() -> (list: UpdateList)
        ensures
            list@ == ListState::empty(),
    {
        let list = UpdateList { updated_edges: Vec::new(), updated_triggers: Vec::new() };
        assert(list@.triggers =~= Seq::empty());
        list
    }

    /// Records that `edge` changed. Nothing is merged here: a tag recorded
    /// twice is queued twice.
    pub fn update_edge(&mut self, edge: DirectedEdge)
        ensures
            final(self)@ == old(self)@.recorded(edge),
    {
        self.updated_edges.push(edge);
    }

    /// Registers a trigger for a port of the edge `edge_index` and answers
    /// with its handle. The triggers registered earlier keep their handles.
    pub fn create_trigger(&mut self, edge_index: EdgeId) -> (handle: TriggerHandle)
        ensures
            final(self)@ == old(self)@.registered(edge_index),
            handle@ == old(self)@.next_slot(),
    {
        let slot = self.updated_triggers.len();
        let update_trigger = UpdateTrigger::create(edge_index);
        self.updated_triggers.push(update_trigger);
        assert(self@.triggers =~= old(self)@.registered(edge_index).triggers);
        TriggerHandle::at(slot)
    }

    /// Enters the next scheduling cycle: every trigger is armed again, and
    /// the tags of the cycle that ends move to the front of `queue`, the
    /// latest of them first.
    pub fn trigger(&mut self, queue: &mut VecDeque<DirectedEdge>)
        ensures
            final(self)@ == old(self)@.rolled(),
            final(queue)@ == old(self)@.drained_into(old(queue)@),
    {
        let count = self.updated_triggers.len();
        let mut at: usize = 0;
        while at < count
            invariant
                at <= count,
                count == self.updated_triggers@.len(),
                count == old(self).updated_triggers@.len(),
                self.updated_edges@ == old(self).updated_edges@,
                forall|i: int|
                    0 <= i < at ==> (#[trigger] self.updated_triggers@[i])@ == old(
                        self,
                    ).updated_triggers@[i]@.advanced(),
                forall|i: int|
                    at <= i < count ==> (#[trigger] self.updated_triggers@[i]) == old(
                        self,
                    ).updated_triggers@[i],
            decreases count - at,
        {
            self.updated_triggers[at].trigger_version();
            at += 1;
        }
        assert(self@.triggers =~= old(self)@.rolled().triggers);
        let ghost registry = self.updated_triggers@;

        let total = self.updated_edges.len();
        let mut moved: usize = 0;
        while moved < total
            invariant
                moved <= total,
                total == self.updated_edges@.len(),
                self.updated_edges@ == old(self).updated_edges@,
                self.updated_triggers@ == registry,
                queue@ == self.updated_edges@.subrange(0, moved as int).reverse() + old(queue)@,
            decreases total - moved,
        {
            let tag = self.updated_edges[moved];
            queue.push_front(tag);
            assert(queue@ =~= self.updated_edges@.subrange(0, moved + 1).reverse() + old(queue)@);
            moved += 1;
        }
        assert(self.updated_edges@.subrange(0, total as int) =~= self.updated_edges@);
        self.updated_edges.clear();
    }

    /// The trigger that `handle` names, if it names one of this list.
    pub fn get(&self, handle: &TriggerHandle) -> (found: Option<&UpdateTrigger>)
        ensures
            self@.holds(handle@) ==> found is Some && found->0@ == self@.triggers[handle@->0],
            !self@.holds(handle@) ==> found is None,
    {
        match handle.slot() {
            Some(slot) => {
                if slot < self.updated_triggers.len() {
                    Some(&self.updated_triggers[slot])
                } else {
                    None
                }
            },
            None => None,
        }
    }
}

} // verus!
