//! What goes to the session and what comes back from it.
//!
//! The session itself lives outside this library. These types are the whole
//! of what the library needs to know of it: three commands, the answer to
//! each, and the two ways in which a call can fail.

use crate::ids::{BackendNodeId, NodeId, RemoteObjectId};
use vstd::prelude::*;

verus! {

/// How deep below the described node a "describe node" command looks.
pub const DESCRIBE_DEPTH: i64 = 100;

/// A command for the session to carry out on the remote page.
#[derive(Clone, Debug, PartialEq, Eq)]
pub enum Command {
    /// Find the first descendant of `node_id` that matches `selector`.
    QuerySelector { node_id: NodeId, selector: String },
    /// Describe `node_id` and its subtree down to `depth` levels.
    DescribeNode { node_id: NodeId, depth: i64 },
    /// Bind a remote object to the node behind `backend_node_id`.
    ResolveNode { backend_node_id: BackendNodeId },
}

/// Why a call to the session produced no answer.
#[derive(Clone, Copy, Debug, PartialEq, Eq, Structural)]
pub enum Failure {
    /// The call itself failed: the connection was lost, what came back
    /// could not be read, or the remote side turned the command down for a
    /// reason of its own, such as a selector that it cannot parse.
    Transport,
    /// The remote side no longer knows the node that the command names.
    StaleNode,
}

/// What the session hands back for one command.
#[derive(Clone, Debug, PartialEq, Eq)]
pub enum Reply {
    /// Answer to [`Command::QuerySelector`]. A query without a match answers
    /// with the node id [`NOT_FOUND`](crate::ids::NOT_FOUND), not with a
    /// failure.
    NodeFound { node_id: NodeId },
    /// Answer to [`Command::DescribeNode`].
    NodeDescribed { backend_node_id: BackendNodeId },
    /// Answer to [`Command::ResolveNode`]. Some nodes have no remote object;
    /// for those `object_id` is `None`.
    NodeResolved { object_id: Option<RemoteObjectId> },
    /// The call failed.
    Failed(Failure),
}

/// A [`Command`] as plain values.
pub enum CommandView {
    QuerySelector { node_id: int, selector: Seq<char> },
    DescribeNode { node_id: int, depth: int },
    ResolveNode { backend_node_id: int },
}

/// A [`Reply`] as plain values.
pub enum ReplyView {
    NodeFound { node_id: int },
    NodeDescribed { backend_node_id: int },
    NodeResolved { object_id: Option<Seq<char>> },
    Failed(Failure),
}

impl View for Command {
    type V = CommandView;

    open spec fn view(&self) -> CommandView {
        match *self {
            Command::QuerySelector { node_id, selector } => CommandView::QuerySelector {
                node_id: node_id@,
                selector: selector@,
            },
            Command::DescribeNode { node_id, depth } => CommandView::DescribeNode {
                node_id: node_id@,
                depth: depth as int,
            },
            Command::ResolveNode { backend_node_id } => CommandView::ResolveNode {
                backend_node_id: backend_node_id@,
            },
        }
    }
}

impl View for Reply {
    type V = ReplyView;

    open spec fn view(&self) -> ReplyView {
        match *self {
            Reply::NodeFound { node_id } => ReplyView::NodeFound { node_id: node_id@ },
            Reply::NodeDescribed { backend_node_id } => ReplyView::NodeDescribed {
                backend_node_id: backend_node_id@,
            },
            Reply::NodeResolved { object_id } => ReplyView::NodeResolved {
                object_id: match object_id {
                    Some(id) => Some(id@),
                    None => None,
                },
            },
            Reply::Failed(failure) => ReplyView::Failed(failure),
        }
    }
}

} // verus!
