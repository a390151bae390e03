//! Element handles, and the resolutions that produce them.

use crate::error::ElementError;
use crate::ids::{BackendNodeId, NodeId, RemoteObjectId};
use crate::protocol::{ElementView, ProgressView, ResolutionView};
use crate::session::{Command, Reply};
use crate::stage::Stage;
use std::sync::Arc;
use vstd::prelude::*;

verus! {

/// A handle to an element of the remote page.
///
/// Its three identifiers named the same node when the handle was made.
/// Nothing keeps them alive afterwards: the node or its remote object may
/// vanish, and the session then fails the commands that name them.
///
/// A handle comes out of a [`Resolution`] and nowhere else. It shares the
/// session with every other handle that was resolved on it.
///
/// The identifiers are open to read as fields. Contracts speak of the
/// handle's view, and the methods of the same names say how the two relate.
#[derive(Debug)]
pub struct Element<S> {
    pub remote_object_id: RemoteObjectId,
    pub backend_node_id: BackendNodeId,
    pub node_id: NodeId,
    tab: Arc<S>,
}

/// A resolution under way: it waits for the reply to [`Resolution::command`].
#[derive(Debug)]
pub struct Resolution<S> {
    tab: Arc<S>,
    stage: Stage,
}

/// What a resolution has come to after a reply.
#[derive(Debug)]
pub enum Progress<S> {
    /// Another command has to be sent.
    Pending(Resolution<S>),
    /// The element is resolved.
    Resolved(Element<S>),
    /// The resolution failed.
    Failed(ElementError),
}

impl<S> View for Element<S> {
    type V = ElementView<S>;

    closed spec fn view(&self) -> ElementView<S> {
        ElementView {
            remote_object_id: self.remote_object_id@,
            backend_node_id: self.backend_node_id@,
            node_id: self.node_id@,
            session: *self.tab,
        }
    }
}

impl<S> View for Resolution<S> {
    type V = ResolutionView<S>;

    closed spec fn view(&self) -> ResolutionView<S> {
        ResolutionView { session: *self.tab, stage: self.stage@ }
    }
}

impl<S> View for Progress<S> {
    type V = ProgressView<S>;

    open spec fn view(&self) -> ProgressView<S> {
        match *self {
            Progress::Pending(resolution) => ProgressView::Pending(resolution@),
            Progress::Resolved(element) => ProgressView::Resolved(element@),
            Progress::Failed(error) => ProgressView::Failed(error@),
        }
    }
}

/// Another handle to the session behind `tab`.
///
/// Calls `Arc::clone`, which makes a second pointer to the same allocation:
/// what the result points to is what `tab` points to.
#[verifier::external_body]
fn share<S>(tab: &Arc<S>) -> (shared: Arc<S>)
    ensures
        *shared == **tab,
{
    Arc::clone(tab)
}

impl<S> Element<S> {
    /// Starts resolving `node_id` on the session behind `tab`.
    ///
    /// The resolution first asks for the description of `node_id`. It takes
    /// any node id: whether the id names a node of the current snapshot is
    /// for the session to say.
    pub fn new(tab: Arc<S>, node_id: NodeId) -> (resolution: Resolution<S>)
        ensures
            resolution@ == ResolutionView::resolve(*tab, node_id@),
    {
        Resolution { tab, stage: Stage::Describe { node_id } }
    }

    /// Starts looking up the first descendant of this element that matches
    /// `selector`.
    ///
    /// The resolution first sends the query, scoped to this element's node
    /// id, and then resolves the node that was found as [`Element::new`]
    /// does, on the session of this element. The selector is not examined
    /// here. This element is left as it is.
    pub fn find_element(&self, selector: String) -> (resolution: Resolution<S>)
        ensures
            resolution@ == ResolutionView::find(self@, selector@),
    {
        Resolution { tab: share(&self.tab), stage: Stage::Query { scope: self.node_id, selector } }
    }

    /// The session that this element was resolved on.
    pub fn tab(&self) -> (tab: &Arc<S>)
        ensures
            **tab == self@.session,
    {
        &self.tab
    }

    /// The identifier of the remote object that is bound to the node.
    pub fn remote_object_id(&self) -> (remote_object_id: &RemoteObjectId)
        ensures
            remote_object_id@ == self@.remote_object_id,
    {
        &self.remote_object_id
    }

    /// The identifier of the node that does not depend on the snapshot.
    pub fn backend_node_id(&self) -> (backend_node_id: BackendNodeId)
        ensures
            backend_node_id@ == self@.backend_node_id,
    {
        self.backend_node_id
    }

    /// The identifier of the node in the snapshot that it was resolved in.
    pub fn node_id(&self) -> (node_id: NodeId)
        ensures
            node_id@ == self@.node_id,
    {
        self.node_id
    }
}

impl<S> Resolution<S> {
    /// The command to send to the session next.
    pub fn command(&self) -> (command: Command)
        ensures
            command@ == self@.command(),
    {
        self.stage.command()
    }

    /// The stage that this resolution is at.
    pub fn stage(&self) -> (stage: &Stage)
        ensures
            stage@ == self@.stage,
    {
        &self.stage
    }

    /// The session to send the command to.
    pub fn tab(&self) -> (tab: &Arc<S>)
        ensures
            **tab == self@.session,
    {
        &self.tab
    }

    /// Takes the session's reply to [`Resolution::command`] and decides how
    /// the resolution goes on.
    pub fn advance(self, reply: Reply) -> (progress: Progress<S>)
        ensures
            progress@ == self@.advance(reply@),
    {
        let Resolution { tab, stage } = self;
        match (stage, reply) {
            (stage, Reply::Failed(failure)) => Progress::Failed(
                ElementError::of_failure(failure, stage),
            ),
            (Stage::Query { scope, selector }, Reply::NodeFound { node_id }) => {
                if node_id.is_not_found() {
                    Progress::Failed(ElementError::NoMatch { node_id: scope, selector })
                } else {
                    Progress::Pending(Element::new(tab, node_id))
                }
            },
            (Stage::Describe { node_id }, Reply::NodeDescribed { backend_node_id }) => {
                Progress::Pending(
                    Resolution { tab, stage: Stage::Resolve { node_id, backend_node_id } },
                )
            },
            (Stage::Resolve { node_id, backend_node_id }, Reply::NodeResolved { object_id }) => {
                match object_id {
                    Some(remote_object_id) => Progress::Resolved(
                        Element { remote_object_id, backend_node_id, node_id, tab },
                    ),
                    None => Progress::Failed(ElementError::UnresolvableNode { node_id }),
                }
            },
            (stage, _) => Progress::Failed(ElementError::Transport { stage }),
        }
    }
}

} // verus!
