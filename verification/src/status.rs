//! Status values shared by graphs, operators and control events.

use vstd::prelude::*;

verus! {

/// Whether a graph is serving requests.
#[derive(Clone, Copy, Debug, PartialEq, Eq, Structural)]
pub enum GraphStatus {
    Active,
    Inactive,
}

/// Whether an operator runtime is ready to handle messages.
#[derive(Clone, Copy, Debug, PartialEq, Eq, Structural)]
pub enum OperatorState {
    Pending,
    Ready,
}

/// Kind of a control event broadcast between graphs.
#[derive(Clone, Copy, Debug, PartialEq, Eq, Structural)]
pub enum ControlEventType {
    Notice,
    OperatorUpdated,
    GraphReplaced,
}

/// An event on the control channels: which graph, in which state, and why.
#[derive(Clone, Debug)]
pub struct ControlEvent {
    pub graph_id: String,
    pub graph_name: String,
    pub graph_status: GraphStatus,
    pub operator_names: Vec<String>,
    pub event_type: ControlEventType,
    pub reason: String,
}

} // verus!
