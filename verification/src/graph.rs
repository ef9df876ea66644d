//! Node and edge handles, and the one question this crate asks of the
//! execution graph: which two nodes an edge connects.

use petgraph::stable_graph::EdgeIndex;
use petgraph::stable_graph::StableGraph;
use petgraph::Directed;
use vstd::prelude::*;

verus! {

/// Handle of a node of the execution graph: the number that the graph gave it.
#[derive(Clone, Copy, Debug, PartialEq, Eq, Structural, Hash)]
pub struct NodeId(pub u32);

/// Handle of an edge of the execution graph: the number that the graph gave it.
#[derive(Clone, Copy, Debug, PartialEq, Eq, Structural, Hash)]
pub struct EdgeId(pub u32);

/// `petgraph::stable_graph::StableGraph`. Its inside stays hidden: all that
/// is known of a graph is what [`graph_edges`] names.
#[verifier::external_type_specification]
#[verifier::external_body]
#[verifier::reject_recursive_types(N)]
#[verifier::reject_recursive_types(E)]
#[verifier::reject_recursive_types(Ty)]
#[verifier::reject_recursive_types(Ix)]
pub struct ExStableGraph<N, E, Ty, Ix>(StableGraph<N, E, Ty, Ix>);

/// `petgraph::Directed`, the marker of graphs whose edges have a direction.
#[verifier::external_type_specification]
#[verifier::external_body]
pub struct ExDirected(Directed);

/// What `StableGraph::edge_endpoints` answers for a graph, as a map: the
/// number of each live edge, mapped to the numbers of the node that the edge
/// leaves and of the node that it enters. Edges that were removed, and
/// numbers that the graph never handed out, are not in the map.
pub uninterp spec fn graph_edges(graph: StableGraph<(), ()>) -> Map<u32, (u32, u32)>;

/// Whether `edge` is a live edge of `graph`.
pub open spec fn has_edge(graph: &StableGraph<(), ()>, edge: EdgeId) -> bool {
    graph_edges(*graph).contains_key(edge.0)
}

/// The nodes that `edge` leaves and enters, where the edge is live.
pub open spec fn endpoints(graph: &StableGraph<(), ()>, edge: EdgeId) -> Option<(NodeId, NodeId)> {
    match graph_edges(*graph).get(edge.0) {
        Some(pair) => Some((NodeId(pair.0), NodeId(pair.1))),
        None => None,
    }
}

/// Calls `StableGraph::edge_endpoints`, which is taken on trust: it looks
/// `edge` up among the graph's edges and answers with the node that the edge
/// leaves and the node that it enters, or with `None` where the graph has no
/// such edge or the edge was removed. The answer depends on the graph and on
/// the edge's number alone, and the call never panics.
#[verifier::external_body]
pub(crate) fn edge_endpoints(graph: &StableGraph<(), ()>, edge: EdgeId) -> (ends: Option<
    (NodeId, NodeId),
>)
    ensures
        ends == match graph_edges(*graph).get(edge.0) {
            Some(pair) => Some((NodeId(pair.0), NodeId(pair.1))),
            None => None,
        },
{
    match graph.edge_endpoints(EdgeIndex::new(edge.0 as usize)) {
        Some((from, to)) => Some((NodeId(from.index() as u32), NodeId(to.index() as u32))),
        None => None,
    }
}

} // verus!
