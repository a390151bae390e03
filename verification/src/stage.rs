//! The stages of a resolution.

use crate::ids::{BackendNodeId, NodeId};
use crate::session::{Command, CommandView, ReplyView, DESCRIBE_DEPTH};
use vstd::prelude::*;

verus! {

/// The round-trips of the protocol, in the order in which they happen.
#[derive(Clone, Copy, Debug, PartialEq, Eq, Structural)]
pub enum Step {
    /// The selector query that starts a lookup below an element.
    Query,
    /// The "describe node" call that yields the backend node id.
    Describe,
    /// The "resolve node" call that yields the remote object.
    Resolve,
}

/// Where a resolution stands: which answer it waits for, and what it has
/// learned so far.
#[derive(Clone, Debug, PartialEq, Eq)]
pub enum Stage {
    /// Waiting for the node that matches `selector` below `scope`.
    Query { scope: NodeId, selector: String },
    /// Waiting for the backend node id of `node_id`.
    Describe { node_id: NodeId },
    /// Waiting for the remote object of `backend_node_id`, which is the
    /// backend node id of `node_id`.
    Resolve { node_id: NodeId, backend_node_id: BackendNodeId },
}

/// A [`Stage`] as plain values.
pub enum StageView {
    Query { scope: int, selector: Seq<char> },
    Describe { node_id: int },
    Resolve { node_id: int, backend_node_id: int },
}

impl StageView {
    /// The round-trip that this stage waits for.
    pub open spec fn step(self) -> Step {
        match self {
            StageView::Query { .. } => Step::Query,
            StageView::Describe { .. } => Step::Describe,
            StageView::Resolve { .. } => Step::Resolve,
        }
    }

    /// The node id that the caller supplied for this stage: the scope of a
    /// query, else the node being resolved.
    pub open spec fn subject(self) -> int {
        match self {
            StageView::Query { scope, .. } => scope,
            StageView::Describe { node_id } => node_id,
            StageView::Resolve { node_id, .. } => node_id,
        }
    }

    /// The selector of a query; other stages have none.
    pub open spec fn selector(self) -> Option<Seq<char>> {
        match self {
            StageView::Query { selector, .. } => Some(selector),
            _ => None,
        }
    }

    /// Whether `reply` is an answer to the command of this stage, whatever
    /// the answer says.
    pub open spec fn answered_by(self, reply: ReplyView) -> bool {
        match self {
            StageView::Query { .. } => reply is NodeFound,
            StageView::Describe { .. } => reply is NodeDescribed,
            StageView::Resolve { .. } => reply is NodeResolved,
        }
    }

    /// The command whose answer this stage waits for.
    pub open spec fn command(self) -> CommandView {
        match self {
            StageView::Query { scope, selector } => CommandView::QuerySelector {
                node_id: scope,
                selector,
            },
            StageView::Describe { node_id } => CommandView::DescribeNode {
                node_id,
                depth: DESCRIBE_DEPTH as int,
            },
            StageView::Resolve { backend_node_id, .. } => CommandView::ResolveNode {
                backend_node_id,
            },
        }
    }
}

impl View for Stage {
    type V = StageView;

    open spec fn view(&self) -> StageView {
        match *self {
            Stage::Query { scope, selector } => StageView::Query {
                scope: scope@,
                selector: selector@,
            },
            Stage::Describe { node_id } => StageView::Describe { node_id: node_id@ },
            Stage::Resolve { node_id, backend_node_id } => StageView::Resolve {
                node_id: node_id@,
                backend_node_id: backend_node_id@,
            },
        }
    }
}

impl Stage {
    /// The round-trip that this stage waits for.
    pub fn step(&self) -> (step: Step)
        ensures
            step == self@.step(),
    {
        match self {
            Stage::Query { .. } => Step::Query,
            Stage::Describe { .. } => Step::Describe,
            Stage::Resolve { .. } => Step::Resolve,
        }
    }

    /// The node id that the caller supplied for this stage: the scope of a
    /// query, else the node being resolved.
    pub fn subject(&self) -> (node_id: NodeId)
        ensures
            node_id@ == self@.subject(),
    {
        match self {
            Stage::Query { scope, .. } => *scope,
            Stage::Describe { node_id } => *node_id,
            Stage::Resolve { node_id, .. } => *node_id,
        }
    }

    /// The selector of a query; other stages have none.
    pub fn selector(&self) -> (selector: Option<&String>)
        ensures
            match selector {
                Some(selector) => self@.selector() == Some(selector@),
                None => self@.selector().is_none(),
            },
    {
        match self {
            Stage::Query { selector, .. } => Some(selector),
            _ => None,
        }
    }

    /// The command whose answer this stage waits for.
    pub fn command(&self) -> (command: Command)
        ensures
            command@ == self@.command(),
    {
        match self {
            Stage::Query { scope, selector } => Command::QuerySelector {
                node_id: *scope,
                selector: selector.clone(),
            },
            Stage::Describe { node_id } => Command::DescribeNode {
                node_id: *node_id,
                depth: DESCRIBE_DEPTH,
            },
            Stage::Resolve { backend_node_id, .. } => Command::ResolveNode {
                backend_node_id: *backend_node_id,
            },
        }
    }
}

} // verus!
