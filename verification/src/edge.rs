//! The notification that a trigger hands to the scheduler: an edge, and the
//! side of the edge that raised it.

use crate::graph::edge_endpoints;
use crate::graph::endpoints;
use crate::graph::has_edge;
use crate::graph::EdgeId;
use crate::graph::NodeId;
use petgraph::stable_graph::StableGraph;
use vstd::prelude::*;

verus! {

/// An edge whose state changed, tagged with the side that noticed.
///
/// `Source` is raised by the port that produces into the edge, `Target` by the
/// port that consumes from it. The tag decides which end of the edge counts as
/// its source and which as its target: a `Target` tag swaps the two, so that
/// the target of a tag is always the node on the far side of the port that
/// raised it.
#[derive(Clone, Copy, Debug, PartialEq, Eq, Structural, Hash)]
pub enum DirectedEdge {
    Source(EdgeId),
    Target(EdgeId),
}

impl DirectedEdge {
    /// The edge that the tag names.
    pub open spec fn edge(self) -> EdgeId {
        match self {
            DirectedEdge::Source(edge) => edge,
            DirectedEdge::Target(edge) => edge,
        }
    }

    /// The source of the tag, given the nodes `ends.0 -> ends.1` of its edge.
    pub open spec fn source_among(self, ends: (NodeId, NodeId)) -> NodeId {
        match self {
            DirectedEdge::Source(_) => ends.0,
            DirectedEdge::Target(_) => ends.1,
        }
    }

    /// The target of the tag, given the nodes `ends.0 -> ends.1` of its edge.
    pub open spec fn target_among(self, ends: (NodeId, NodeId)) -> NodeId {
        match self {
            DirectedEdge::Source(_) => ends.1,
            DirectedEdge::Target(_) => ends.0,
        }
    }

    /// The source and the target of the tag in `graph`, where its edge is live.
    pub open spec fn resolved(self, graph: &StableGraph<(), ()>) -> Option<(NodeId, NodeId)> {
        match endpoints(graph, self.edge()) {
            Some(ends) => Some((self.source_among(ends), self.target_among(ends))),
            None => None,
        }
    }

    /// The edge that the tag names.
    pub fn edge_index(&self) -> (edge: EdgeId)
        ensures
            edge == self.edge(),
    {
        match self {
            DirectedEdge::Source(edge) => *edge,
            DirectedEdge::Target(edge) => *edge,
        }
    }

    /// Picks the source of the tag out of the two ends of its edge.
    pub fn pick_source(&self, ends: (NodeId, NodeId)) -> (node: NodeId)
        ensures
            node == self.source_among(ends),
    {
        match self {
            DirectedEdge::Source(_) => ends.0,
            DirectedEdge::Target(_) => ends.1,
        }
    }

    /// Picks the target of the tag out of the two ends of its edge.
    pub fn pick_target(&self, ends: (NodeId, NodeId)) -> (node: NodeId)
        ensures
            node == self.target_among(ends),
    {
        match self {
            DirectedEdge::Source(_) => ends.1,
            DirectedEdge::Target(_) => ends.0,
        }
    }

    /// Looks the tag's edge up in `graph` and answers with the tag's source
    /// and target, or with `None` where the graph has no such edge.
    pub fn resolve(&self, graph: &StableGraph<(), ()>) -> (ends: Option<(NodeId, NodeId)>)
        ensures
            ends == self.resolved(graph),
    {
        match edge_endpoints(graph, self.edge_index()) {
            Some(pair) => Some((self.pick_source(pair), self.pick_target(pair))),
            None => None,
        }
    }

    /// The node that counts as the source of the tag in `graph`: the node that
    /// the edge leaves for a `Source` tag, the node that it enters for a
    /// `Target` tag. The edge has to be live in `graph`.
    pub fn get_source(&self, graph: &StableGraph<(), ()>) -> (node: NodeId)
        requires
            has_edge(graph, self.edge()),
        ensures
            node == self.source_among(endpoints(graph, self.edge()).unwrap()),
    {
        let ends = edge_endpoints(graph, self.edge_index()).unwrap();
        self.pick_source(ends)
    }

    /// The node that counts as the target of the tag in `graph`: the node that
    /// the edge enters for a `Source` tag, the node that it leaves for a
    /// `Target` tag. The edge has to be live in `graph`.
    pub fn get_target(&self, graph: &StableGraph<(), ()>) -> (node: NodeId)
        requires
            has_edge(graph, self.edge()),
        ensures
            node == self.target_among(endpoints(graph, self.edge()).unwrap()),
    {
        let ends = edge_endpoints(graph, self.edge_index()).unwrap();
        self.pick_target(ends)
    }
}

} // verus!
