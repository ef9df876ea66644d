use petgraph::stable_graph::EdgeIndex;
use petgraph::stable_graph::NodeIndex;
use petgraph::stable_graph::StableGraph;
use port_trigger::DirectedEdge;
use port_trigger::EdgeId;
use port_trigger::NodeId;
use port_trigger::UpdateList;
use port_trigger::UpdateTrigger;
use std::collections::VecDeque;

fn node(index: NodeIndex) -> NodeId {
    NodeId(index.index() as u32)
}

fn edge(index: EdgeIndex) -> EdgeId {
    EdgeId(index.index() as u32)
}

#[test]
fn tag_names_its_edge() {
    assert_eq!(DirectedEdge::Source(EdgeId(12)).edge_index(), EdgeId(12));
    assert_eq!(DirectedEdge::Target(EdgeId(13)).edge_index(), EdgeId(13));
}

#[test]
fn source_tag_keeps_the_ends() {
    let tag = DirectedEdge::Source(EdgeId(0));
    assert_eq!(tag.pick_source((NodeId(4), NodeId(9))), NodeId(4));
    assert_eq!(tag.pick_target((NodeId(4), NodeId(9))), NodeId(9));
}

#[test]
fn target_tag_swaps_the_ends() {
    let tag = DirectedEdge::Target(EdgeId(0));
    assert_eq!(tag.pick_source((NodeId(4), NodeId(9))), NodeId(9));
    assert_eq!(tag.pick_target((NodeId(4), NodeId(9))), NodeId(4));
}

#[test]
fn tags_resolve_against_the_graph() {
    let mut graph: StableGraph<(), ()> = StableGraph::new();
    let _spare = graph.add_node(());
    let _other = graph.add_node(());
    let a = graph.add_node(());
    let b = graph.add_node(());
    let _first = graph.add_edge(b, a, ());
    let e = graph.add_edge(a, b, ());
    assert_eq!((edge(e), node(a), node(b)), (EdgeId(1), NodeId(2), NodeId(3)));

    let produced = DirectedEdge::Source(edge(e));
    assert_eq!(produced.get_source(&graph), node(a));
    assert_eq!(produced.get_target(&graph), node(b));
    assert_eq!(produced.resolve(&graph), Some((node(a), node(b))));

    let consumed = DirectedEdge::Target(edge(e));
    assert_eq!(consumed.get_source(&graph), node(b));
    assert_eq!(consumed.get_target(&graph), node(a));
    assert_eq!(consumed.resolve(&graph), Some((node(b), node(a))));
}

#[test]
fn signal_direction_decides_the_target() {
    let mut graph: StableGraph<(), ()> = StableGraph::new();
    let a = graph.add_node(());
    let b = graph.add_node(());
    let e = graph.add_edge(a, b, ());

    let mut list = UpdateList::create();
    let input_port = list.create_trigger(edge(e));
    let output_port = list.create_trigger(edge(e));

    UpdateTrigger::update_input(&input_port, &mut list);
    let mut queue = VecDeque::new();
    list.trigger(&mut queue);
    assert_eq!(queue.len(), 1);
    assert_eq!(queue[0].get_target(&graph), node(a));
    assert_eq!(queue[0].get_source(&graph), node(b));

    UpdateTrigger::update_output(&output_port, &mut list);
    let mut queue = VecDeque::new();
    list.trigger(&mut queue);
    assert_eq!(queue.len(), 1);
    assert_eq!(queue[0].get_target(&graph), node(b));
    assert_eq!(queue[0].get_source(&graph), node(a));
}

#[test]
fn unknown_edge_does_not_resolve() {
    let mut graph: StableGraph<(), ()> = StableGraph::new();
    let a = graph.add_node(());
    let b = graph.add_node(());
    let _e = graph.add_edge(a, b, ());
    assert_eq!(DirectedEdge::Source(EdgeId(1)).resolve(&graph), None);
    assert_eq!(DirectedEdge::Target(EdgeId(u32::MAX)).resolve(&graph), None);
}

#[test]
fn removed_edge_does_not_resolve_and_others_keep_their_index() {
    let mut graph: StableGraph<(), ()> = StableGraph::new();
    let a = graph.add_node(());
    let b = graph.add_node(());
    let c = graph.add_node(());
    let e1 = graph.add_edge(a, b, ());
    let e2 = graph.add_edge(b, c, ());
    graph.remove_edge(e1);
    assert_eq!(DirectedEdge::Source(edge(e1)).resolve(&graph), None);
    assert_eq!(DirectedEdge::Source(edge(e2)).resolve(&graph), Some((node(b), node(c))));
    assert_eq!(DirectedEdge::Target(edge(e2)).get_target(&graph), node(b));
}

#[test]
fn chain_reports_the_middle_node_from_both_sides() {
    let mut graph: StableGraph<(), ()> = StableGraph::new();
    let a = graph.add_node(());
    let b = graph.add_node(());
    let c = graph.add_node(());
    let e1 = graph.add_edge(a, b, ());
    let e2 = graph.add_edge(b, c, ());

    let mut list = UpdateList::create();
    let e1_output = list.create_trigger(edge(e1));
    let _e1_input = list.create_trigger(edge(e1));
    let _e2_output = list.create_trigger(edge(e2));
    let e2_input = list.create_trigger(edge(e2));

    UpdateTrigger::update_output(&e1_output, &mut list);
    UpdateTrigger::update_input(&e2_input, &mut list);

    let mut queue = VecDeque::new();
    list.trigger(&mut queue);
    assert_eq!(
        queue,
        VecDeque::from(vec![DirectedEdge::Target(edge(e2)), DirectedEdge::Source(edge(e1))])
    );
    assert_eq!(queue[0].get_target(&graph), node(b));
    assert_eq!(queue[0].get_source(&graph), node(c));
    assert_eq!(queue[1].get_target(&graph), node(b));
    assert_eq!(queue[1].get_source(&graph), node(a));
}
