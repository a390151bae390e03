//! The resolution protocol as a state machine over plain values.
//!
//! A resolution is at one of three stages, each waiting for the answer to one
//! command. [`ResolutionView::advance`] is the whole protocol: it says, for
//! every stage and every reply, what happens next. The functions that run the
//! protocol are proved to compute exactly this, and the laws of the library
//! are stated over it.

use crate::error::ErrorView;
use crate::ids::NOT_FOUND;
use crate::session::{CommandView, ReplyView};
use crate::stage::StageView;
use vstd::prelude::*;

verus! {

/// An element as plain values: its three identifiers and the session that
/// they belong to.
pub struct ElementView<S> {
    pub remote_object_id: Seq<char>,
    pub backend_node_id: int,
    pub node_id: int,
    pub session: S,
}

/// A resolution under way, as plain values.
pub struct ResolutionView<S> {
    pub session: S,
    pub stage: StageView,
}

/// What a resolution has come to, as plain values.
pub enum ProgressView<S> {
    /// Another command has to be sent.
    Pending(ResolutionView<S>),
    /// The element is resolved.
    Resolved(ElementView<S>),
    /// The resolution failed.
    Failed(ErrorView),
}

impl<S> ResolutionView<S> {
    /// The start of resolving `node_id` on `session`.
    pub open spec fn resolve(session: S, node_id: int) -> Self {
        ResolutionView { session, stage: StageView::Describe { node_id } }
    }

    /// The start of looking up `selector` below `element`, on the session of
    /// `element`.
    pub open spec fn find(element: ElementView<S>, selector: Seq<char>) -> Self {
        ResolutionView {
            session: element.session,
            stage: StageView::Query { scope: element.node_id, selector },
        }
    }

    /// The command to send next.
    pub open spec fn command(self) -> CommandView {
        self.stage.command()
    }

    /// What `reply` to the outstanding command leads to.
    ///
    /// A failed call ends the resolution with the error for its stage. The
    /// answer that the stage waits for moves it on: a query to the resolution
    /// of the node it found, unless it found none; a description to the
    /// resolve stage; a resolved node to the finished element, unless the node
    /// has no remote object. Any other reply is not an answer to the command
    /// that was sent, and counts as a transport error.
    pub open spec fn advance(self, reply: ReplyView) -> ProgressView<S> {
        match (self.stage, reply) {
            (stage, ReplyView::Failed(failure)) => ProgressView::Failed(
                ErrorView::of_failure(failure, stage),
            ),
            (StageView::Query { scope, selector }, ReplyView::NodeFound { node_id }) => {
                if node_id == NOT_FOUND {
                    ProgressView::Failed(ErrorView::NoMatch { node_id: scope, selector })
                } else {
                    ProgressView::Pending(Self::resolve(self.session, node_id))
                }
            },
            (StageView::Describe { node_id }, ReplyView::NodeDescribed { backend_node_id }) => {
                ProgressView::Pending(
                    ResolutionView {
                        session: self.session,
                        stage: StageView::Resolve { node_id, backend_node_id },
                    },
                )
            },
            (
                StageView::Resolve { node_id, backend_node_id },
                ReplyView::NodeResolved { object_id },
            ) => {
                match object_id {
                    Some(remote_object_id) => ProgressView::Resolved(
                        ElementView {
                            remote_object_id,
                            backend_node_id,
                            node_id,
                            session: self.session,
                        },
                    ),
                    None => ProgressView::Failed(ErrorView::UnresolvableNode { node_id }),
                }
            },
            (stage, _) => ProgressView::Failed(ErrorView::Transport { stage }),
        }
    }
}

impl<S> ProgressView<S> {
    /// What `reply` leads to from here. Once a resolution is over, further
    /// replies change nothing.
    pub open spec fn feed(self, reply: ReplyView) -> Self {
        match self {
            ProgressView::Pending(resolution) => resolution.advance(reply),
            over => over,
        }
    }

    /// What the replies lead to when they are fed in one after another.
    pub open spec fn run(self, replies: Seq<ReplyView>) -> Self
        decreases replies.len(),
    {
        if replies.len() == 0 {
            self
        } else {
            self.feed(replies.first()).run(replies.drop_first())
        }
    }

    /// The commands that were answered while `replies` were fed in, in the
    /// order in which they were sent: one for each reply that arrived while
    /// the resolution was still pending.
    pub open spec fn asked(self, replies: Seq<ReplyView>) -> Seq<CommandView>
        decreases replies.len(),
    {
        match self {
            ProgressView::Pending(resolution) if replies.len() > 0 => seq![resolution.command()]
                + self.feed(replies.first()).asked(replies.drop_first()),
            _ => Seq::empty(),
        }
    }
}

/// One reply of a session that serves two resolutions at once, marked with
/// the resolution that it belongs to.
pub enum Delivery {
    First(ReplyView),
    Second(ReplyView),
}

/// The replies among `deliveries` that belong to the first resolution, in
/// the order in which they arrived.
pub open spec fn replies_to_first(deliveries: Seq<Delivery>) -> Seq<ReplyView>
    decreases deliveries.len(),
{
    if deliveries.len() == 0 {
        Seq::empty()
    } else {
        match deliveries.first() {
            Delivery::First(reply) => seq![reply] + replies_to_first(deliveries.drop_first()),
            Delivery::Second(_) => replies_to_first(deliveries.drop_first()),
        }
    }
}

/// The replies among `deliveries` that belong to the second resolution, in
/// the order in which they arrived.
pub open spec fn replies_to_second(deliveries: Seq<Delivery>) -> Seq<ReplyView>
    decreases deliveries.len(),
{
    if deliveries.len() == 0 {
        Seq::empty()
    } else {
        match deliveries.first() {
            Delivery::First(_) => replies_to_second(deliveries.drop_first()),
            Delivery::Second(reply) => seq![reply] + replies_to_second(deliveries.drop_first()),
        }
    }
}

/// What two resolutions come to when their replies arrive interleaved, each
/// reply being fed to the resolution that it belongs to.
pub open spec fn run_both<S, T>(
    first: ProgressView<S>,
    second: ProgressView<T>,
    deliveries: Seq<Delivery>,
) -> (ProgressView<S>, ProgressView<T>)
    decreases deliveries.len(),
{
    if deliveries.len() == 0 {
        (first, second)
    } else {
        match deliveries.first() {
            Delivery::First(reply) => run_both(
                first.feed(reply),
                second,
                deliveries.drop_first(),
            ),
            Delivery::Second(reply) => run_both(
                first,
                second.feed(reply),
                deliveries.drop_first(),
            ),
        }
    }
}

} // verus!
