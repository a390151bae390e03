//! The three identifier spaces of a remote DOM node.

use vstd::prelude::*;

verus! {

/// The node id that a selector query answers with when nothing matched.
pub const NOT_FOUND: i64 = 0;

/// Identifies a node within the session's current snapshot of the DOM tree.
/// Any change of the tree may invalidate it.
#[derive(Clone, Copy, Debug, PartialEq, Eq, Hash, Structural)]
pub struct NodeId(pub i64);

/// Identifies a node independently of tree snapshots, for as long as the node
/// stays in the document.
#[derive(Clone, Copy, Debug, PartialEq, Eq, Hash, Structural)]
pub struct BackendNodeId(pub i64);

/// Identifies the live remote object that is bound to a node. It is valid
/// only while the remote side keeps that object.
#[derive(Clone, Debug, PartialEq, Eq, Hash)]
pub struct RemoteObjectId(pub String);

impl View for NodeId {
    type V = int;

    open spec fn view(&self) -> int {
        self.0 as int
    }
}

impl View for BackendNodeId {
    type V = int;

    open spec fn view(&self) -> int {
        self.0 as int
    }
}

impl View for RemoteObjectId {
    type V = Seq<char>;

    open spec fn view(&self) -> Seq<char> {
        self.0@
    }
}

impl NodeId {
    /// Whether this is the marker for "no such node" rather than a node.
    pub fn is_not_found(&self) -> (marker: bool)
        ensures
            marker == (self@ == NOT_FOUND),
    {
        self.0 == NOT_FOUND
    }
}

} // verus!
