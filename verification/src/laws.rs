//! What holds of every resolution, proved over the protocol.

use crate::error::ErrorView;
use crate::ids::NOT_FOUND;
use crate::protocol::{
    replies_to_first, replies_to_second, run_both, Delivery, ElementView, ProgressView,
    ResolutionView,
};
use crate::session::{CommandView, Failure, ReplyView, DESCRIBE_DEPTH};
use vstd::prelude::*;

verus! {

/// Once a resolution is over, whatever else is fed in changes nothing and
/// counts as no round-trip.
pub proof fn over_stays_over<S>(progress: ProgressView<S>, replies: Seq<ReplyView>)
    requires
        !(progress is Pending),
    ensures
        progress.run(replies) == progress,
        progress.asked(replies) == Seq::<CommandView>::empty(),
    decreases replies.len(),
{
    if replies.len() > 0 {
        over_stays_over(progress.feed(replies.first()), replies.drop_first());
    }
}

/// Running a resolution is feeding it the first three replies, one after
/// another: no later reply is looked at.
proof fn run_feeds_three<S>(resolution: ResolutionView<S>, replies: Seq<ReplyView>)
    ensures
        ({
            let start = ProgressView::Pending(resolution);
            start.run(replies) == if replies.len() == 0 {
                start
            } else if replies.len() == 1 {
                start.feed(replies[0])
            } else if replies.len() == 2 {
                start.feed(replies[0]).feed(replies[1])
            } else {
                start.feed(replies[0]).feed(replies[1]).feed(replies[2])
            }
        }),
{
    reveal_with_fuel(ProgressView::run, 4);
    let start = ProgressView::Pending(resolution);
    if replies.len() >= 3 {
        let rest = replies.drop_first().drop_first().drop_first();
        over_stays_over(start.feed(replies[0]).feed(replies[1]).feed(replies[2]), rest);
    }
}

/// Every resolution is over after three replies, and one that starts by
/// describing a node after two.
pub proof fn over_after_three_replies<S>(resolution: ResolutionView<S>, replies: Seq<ReplyView>)
    requires
        replies.len() >= 3 || (replies.len() == 2 && !(resolution.stage is Query)),
    ensures
        !(ProgressView::Pending(resolution).run(replies) is Pending),
{
    run_feeds_three(resolution, replies);
}

/// A node that the session describes and then resolves to an object becomes
/// an element whose three identifiers belong together: the node id is the one
/// asked for, the backend node id is the session's answer about that node id,
/// and the remote object id is the session's answer about that backend node
/// id. The element is on the session that the resolution was started on.
pub proof fn resolve_yields_consistent_element<S>(
    session: S,
    node_id: int,
    backend_node_id: int,
    remote_object_id: Seq<char>,
)
    ensures
        ({
            let start = ProgressView::Pending(ResolutionView::resolve(session, node_id));
            let replies = seq![
                ReplyView::NodeDescribed { backend_node_id },
                ReplyView::NodeResolved { object_id: Some(remote_object_id) },
            ];
            &&& start.run(replies) == ProgressView::Resolved(
                ElementView { remote_object_id, backend_node_id, node_id, session },
            )
            &&& start.asked(replies) == seq![
                CommandView::DescribeNode { node_id, depth: DESCRIBE_DEPTH as int },
                CommandView::ResolveNode { backend_node_id },
            ]
        }),
{
    let start = ProgressView::Pending(ResolutionView::resolve(session, node_id));
    let replies = seq![
        ReplyView::NodeDescribed { backend_node_id },
        ReplyView::NodeResolved { object_id: Some(remote_object_id) },
    ];
    run_feeds_three(ResolutionView::resolve(session, node_id), replies);
    reveal_with_fuel(ProgressView::asked, 3);
    assert(start.asked(replies) =~= seq![
        CommandView::DescribeNode { node_id, depth: DESCRIBE_DEPTH as int },
        CommandView::ResolveNode { backend_node_id },
    ]);
}

/// An element comes out of a resolution only after the session has described
/// the node that was asked for and resolved the backend node id it gave to an
/// object, and it holds exactly these identifiers. No other exchange, and no
/// part of this one, makes an element.
pub proof fn element_only_from_consistent_replies<S>(
    session: S,
    node_id: int,
    replies: Seq<ReplyView>,
)
    ensures
        ProgressView::Pending(ResolutionView::resolve(session, node_id)).run(
            replies,
        ) matches ProgressView::Resolved(element) ==> {
            &&& replies.len() >= 2
            &&& replies[0] == ReplyView::NodeDescribed { backend_node_id: element.backend_node_id }
            &&& replies[1] == ReplyView::NodeResolved {
                object_id: Some(element.remote_object_id),
            }
            &&& element.node_id == node_id
            &&& element.session == session
        },
{
    run_feeds_three(ResolutionView::resolve(session, node_id), replies);
}

/// A node that the session describes but resolves to no object is reported
/// as unresolvable, with the node id that was asked for. No element is made
/// of the identifiers that were found.
pub proof fn absent_object_is_unresolvable<S>(
    session: S,
    node_id: int,
    replies: Seq<ReplyView>,
)
    requires
        replies.len() >= 2,
        replies[0] is NodeDescribed,
        replies[1] == (ReplyView::NodeResolved { object_id: None }),
    ensures
        ProgressView::Pending(ResolutionView::resolve(session, node_id)).run(replies)
            == ProgressView::<S>::Failed(ErrorView::UnresolvableNode { node_id }),
{
    run_feeds_three(ResolutionView::resolve(session, node_id), replies);
}

/// A resolution fails as unresolvable only when the session resolved the
/// described node to no object, and it then names the node id that was asked
/// for.
pub proof fn unresolvable_only_for_absent_object<S>(
    session: S,
    node_id: int,
    replies: Seq<ReplyView>,
)
    ensures
        ProgressView::Pending(ResolutionView::resolve(session, node_id)).run(
            replies,
        ) matches ProgressView::Failed(ErrorView::UnresolvableNode { node_id: reported }) ==> {
            &&& reported == node_id
            &&& replies.len() >= 2
            &&& replies[0] is NodeDescribed
            &&& replies[1] == (ReplyView::NodeResolved { object_id: None })
        },
{
    run_feeds_three(ResolutionView::resolve(session, node_id), replies);
}

/// A query that finds nothing ends the lookup with its own error, which
/// names the element's node and the selector. It comes from the marker node
/// id in a successful reply and from nothing else: a call that failed gives a
/// transport or a stale-reference error.
pub proof fn no_match_is_told_apart<S>(
    element: ElementView<S>,
    selector: Seq<char>,
    replies: Seq<ReplyView>,
)
    ensures
        ({
            let outcome = ProgressView::Pending(ResolutionView::find(element, selector)).run(
                replies,
            );
            let nothing_found = replies.len() >= 1 && replies[0] == (ReplyView::NodeFound {
                node_id: NOT_FOUND as int,
            });
            &&& nothing_found ==> outcome == ProgressView::<S>::Failed(
                ErrorView::NoMatch { node_id: element.node_id, selector },
            )
            &&& outcome matches ProgressView::Failed(ErrorView::NoMatch { .. }) ==> nothing_found
        }),
{
    run_feeds_three(ResolutionView::find(element, selector), replies);
}

/// The commands that get an answer are those of the first three stages that
/// the resolution reaches, in the order in which it reaches them.
proof fn asked_in_order<S>(resolution: ResolutionView<S>, replies: Seq<ReplyView>)
    ensures
        ({
            let start = ProgressView::Pending(resolution);
            let asked = start.asked(replies);
            let second = start.feed(replies[0]);
            let third = second.feed(replies[1]);
            &&& asked.len() == if replies.len() == 0 {
                0nat
            } else if replies.len() == 1 || !(second is Pending) {
                1nat
            } else if replies.len() == 2 || !(third is Pending) {
                2nat
            } else {
                3nat
            }
            &&& asked.len() >= 1 ==> asked[0] == resolution.command()
            &&& asked.len() >= 2 ==> asked[1] == second->Pending_0.command()
            &&& asked.len() >= 3 ==> asked[2] == third->Pending_0.command()
        }),
{
    reveal_with_fuel(ProgressView::asked, 4);
    let start = ProgressView::Pending(resolution);
    if replies.len() >= 3 {
        let rest = replies.drop_first().drop_first().drop_first();
        over_stays_over(start.feed(replies[0]).feed(replies[1]).feed(replies[2]), rest);
    }
}

/// Resolving a node takes two round-trips, in this order: the description of
/// the node that was asked for, to the fixed depth, and the resolving of the
/// backend node id that the description gave. A resolution that fails at the
/// first makes only that one.
pub proof fn resolve_makes_two_round_trips<S>(session: S, node_id: int, replies: Seq<ReplyView>)
    ensures
        ({
            let start = ProgressView::Pending(ResolutionView::resolve(session, node_id));
            let asked = start.asked(replies);
            &&& asked.len() <= 2
            &&& asked.len() <= replies.len()
            &&& asked.len() >= 1 ==> asked[0] == CommandView::DescribeNode {
                node_id,
                depth: DESCRIBE_DEPTH as int,
            }
            &&& asked.len() == 2 ==> replies[0] is NodeDescribed && asked[1]
                == (CommandView::ResolveNode { backend_node_id: replies[0]->backend_node_id })
            &&& start.run(replies) is Resolved ==> asked.len() == 2
        }),
{
    run_feeds_three(ResolutionView::resolve(session, node_id), replies);
    asked_in_order(ResolutionView::resolve(session, node_id), replies);
}

/// Looking up an element takes three round-trips, in this order: the
/// selector query, scoped to the element's node; the description of the node
/// that the query found, to the fixed depth; the resolving of the backend
/// node id that the description gave. A lookup that fails stops at the
/// round-trip that failed, having made the ones before it in the same order.
pub proof fn find_element_makes_three_round_trips<S>(
    element: ElementView<S>,
    selector: Seq<char>,
    replies: Seq<ReplyView>,
)
    ensures
        ({
            let start = ProgressView::Pending(ResolutionView::find(element, selector));
            let asked = start.asked(replies);
            &&& asked.len() <= 3
            &&& asked.len() <= replies.len()
            &&& asked.len() >= 1 ==> asked[0] == CommandView::QuerySelector {
                node_id: element.node_id,
                selector,
            }
            &&& asked.len() >= 2 ==> replies[0] is NodeFound && asked[1]
                == (CommandView::DescribeNode {
                node_id: replies[0]->node_id,
                depth: DESCRIBE_DEPTH as int,
            })
            &&& asked.len() == 3 ==> replies[1] is NodeDescribed && asked[2]
                == (CommandView::ResolveNode { backend_node_id: replies[1]->backend_node_id })
            &&& start.run(replies) is Resolved ==> asked.len() == 3
        }),
{
    run_feeds_three(ResolutionView::find(element, selector), replies);
    asked_in_order(ResolutionView::find(element, selector), replies);
}

/// The element that a lookup finds is the resolved form of the node that the
/// query answered with, on the session of the element that was searched. The
/// element that was searched is no part of the outcome beyond its node id
/// and its session.
pub proof fn find_element_resolves_what_the_query_found<S>(
    element: ElementView<S>,
    selector: Seq<char>,
    replies: Seq<ReplyView>,
)
    ensures
        ProgressView::Pending(ResolutionView::find(element, selector)).run(
            replies,
        ) matches ProgressView::Resolved(found) ==> {
            &&& replies.len() >= 3
            &&& replies[0] == ReplyView::NodeFound { node_id: found.node_id }
            &&& found.node_id != NOT_FOUND
            &&& replies[1] == ReplyView::NodeDescribed { backend_node_id: found.backend_node_id }
            &&& replies[2] == ReplyView::NodeResolved { object_id: Some(found.remote_object_id) }
            &&& found.session == element.session
        },
        replies.len() >= 1 && replies[0] is NodeFound && replies[0]->node_id != NOT_FOUND
            ==> ProgressView::Pending(ResolutionView::find(element, selector)).run(replies)
            == ProgressView::Pending(
            ResolutionView::resolve(element.session, replies[0]->node_id),
        ).run(replies.drop_first()),
{
    run_feeds_three(ResolutionView::find(element, selector), replies);
    if replies.len() >= 1 && replies[0] is NodeFound {
        run_feeds_three(
            ResolutionView::resolve(element.session, replies[0]->node_id),
            replies.drop_first(),
        );
    }
}

/// Every error is about the stage at which it arose: it names the step of
/// that stage, the node id that the caller supplied for it, and its selector
/// if it has one. Which error
/// it is follows from the reply. A call that failed gives the error of its
/// failure. An answer to another command gives a transport error. The marker
/// node id in answer to a query gives "no match", and no object in answer to
/// resolving gives "unresolvable". Every other answer lets the resolution go
/// on.
pub proof fn error_tells_what_happened<S>(resolution: ResolutionView<S>, reply: ReplyView)
    ensures
        match resolution.advance(reply) {
            ProgressView::Failed(error) => {
                &&& error.step() == resolution.stage.step()
                &&& error.node_id() == resolution.stage.subject()
                &&& error.selector() == resolution.stage.selector()
                &&& error is Transport <==> reply == ReplyView::Failed(Failure::Transport) || (!(reply is Failed)
                    && !resolution.stage.answered_by(reply))
                &&& error is StaleReference <==> reply == ReplyView::Failed(Failure::StaleNode)
                &&& error is NoMatch <==> resolution.stage is Query && reply
                    == (ReplyView::NodeFound { node_id: NOT_FOUND as int })
                &&& error is UnresolvableNode <==> resolution.stage is Resolve && reply
                    == (ReplyView::NodeResolved { object_id: None })
            },
            _ => resolution.stage.answered_by(reply),
        },
{
}

/// Two resolutions that share nothing but the order in which their replies
/// arrive do not touch each other: however the replies are interleaved, each
/// resolution comes to what its own replies alone lead to.
pub proof fn interleaving_changes_nothing<S, T>(
    first: ProgressView<S>,
    second: ProgressView<T>,
    deliveries: Seq<Delivery>,
)
    ensures
        run_both(first, second, deliveries) == (
            first.run(replies_to_first(deliveries)),
            second.run(replies_to_second(deliveries)),
        ),
    decreases deliveries.len(),
{
    if deliveries.len() > 0 {
        let rest = deliveries.drop_first();
        match deliveries.first() {
            Delivery::First(reply) => {
                interleaving_changes_nothing(first.feed(reply), second, rest);
                let mine = replies_to_first(deliveries);
                assert(mine.drop_first() =~= replies_to_first(rest));
            },
            Delivery::Second(reply) => {
                interleaving_changes_nothing(first, second.feed(reply), rest);
                let mine = replies_to_second(deliveries);
                assert(mine.drop_first() =~= replies_to_second(rest));
            },
        }
    }
}

} // verus!
