//! Edge-triggered scheduling signals for a pipelined execution graph.
//!
//! Every port of the graph owns a trigger that turns a burst of "this edge
//! changed" events into a single notification per scheduling cycle. The
//! notifications of one cycle are gathered in an [`UpdateList`] and handed to
//! the scheduler as a queue of [`DirectedEdge`] tags when the cycle turns over.

pub mod edge;
pub mod graph;
pub mod laws;
pub mod list;
pub mod model;
pub mod trigger;

pub use edge::DirectedEdge;
pub use graph::EdgeId;
pub use graph::NodeId;
pub use list::UpdateList;
pub use trigger::TriggerHandle;
pub use trigger::UpdateTrigger;
