//! How resolving an element can fail.

use crate::ids::NodeId;
use crate::session::Failure;
use crate::stage::{Stage, StageView, Step};
use vstd::prelude::*;

verus! {

/// Why no element came out of a resolution.
///
/// Nothing is retried here. Each error goes to the caller with what it
/// takes to tell what went wrong: the step it arose in, the node id that it
/// is about and, where a selector was involved, the selector.
#[derive(Clone, Debug, PartialEq, Eq)]
pub enum ElementError {
    /// The call to the session failed at `stage`, or its answer was not the
    /// answer to the command that was sent.
    Transport { stage: Stage },
    /// The remote side no longer knows the node that the command at `stage`
    /// named. The caller has to obtain a fresh node id.
    StaleReference { stage: Stage },
    /// The node exists but has no remote object, so there is nothing for an
    /// element to refer to.
    UnresolvableNode { node_id: NodeId },
    /// No descendant of `node_id` matches `selector`.
    NoMatch { node_id: NodeId, selector: String },
}

/// An [`ElementError`] as plain values.
pub enum ErrorView {
    Transport { stage: StageView },
    StaleReference { stage: StageView },
    UnresolvableNode { node_id: int },
    NoMatch { node_id: int, selector: Seq<char> },
}

impl ErrorView {
    /// The error for a call that failed with `failure` at `stage`.
    pub open spec fn of_failure(failure: Failure, stage: StageView) -> ErrorView {
        match failure {
            Failure::Transport => ErrorView::Transport { stage },
            Failure::StaleNode => ErrorView::StaleReference { stage },
        }
    }

    /// The step in which the error arose.
    pub open spec fn step(self) -> Step {
        match self {
            ErrorView::Transport { stage } => stage.step(),
            ErrorView::StaleReference { stage } => stage.step(),
            ErrorView::UnresolvableNode { .. } => Step::Resolve,
            ErrorView::NoMatch { .. } => Step::Query,
        }
    }

    /// The node id that the error is about: the one that the caller
    /// supplied for the step that failed.
    pub open spec fn node_id(self) -> int {
        match self {
            ErrorView::Transport { stage } => stage.subject(),
            ErrorView::StaleReference { stage } => stage.subject(),
            ErrorView::UnresolvableNode { node_id } => node_id,
            ErrorView::NoMatch { node_id, .. } => node_id,
        }
    }

    /// The selector that the error is about, where the step that failed
    /// had one.
    pub open spec fn selector(self) -> Option<Seq<char>> {
        match self {
            ErrorView::Transport { stage } => stage.selector(),
            ErrorView::StaleReference { stage } => stage.selector(),
            ErrorView::UnresolvableNode { .. } => None,
            ErrorView::NoMatch { selector, .. } => Some(selector),
        }
    }

    /// Whether a call to the session failed, as opposed to a call that was
    /// answered with a node that cannot become an element.
    pub open spec fn is_protocol_error(self) -> bool {
        self is Transport || self is StaleReference
    }
}

impl View for ElementError {
    type V = ErrorView;

    open spec fn view(&self) -> ErrorView {
        match *self {
            ElementError::Transport { stage } => ErrorView::Transport { stage: stage@ },
            ElementError::StaleReference { stage } => ErrorView::StaleReference { stage: stage@ },
            ElementError::UnresolvableNode { node_id } => ErrorView::UnresolvableNode {
                node_id: node_id@,
            },
            ElementError::NoMatch { node_id, selector } => ErrorView::NoMatch {
                node_id: node_id@,
                selector: selector@,
            },
        }
    }
}

impl ElementError {
    /// The error for a call that failed with `failure` at `stage`.
    pub fn of_failure(failure: Failure, stage: Stage) -> (error: ElementError)
        ensures
            error@ == ErrorView::of_failure(failure, stage@),
    {
        match failure {
            Failure::Transport => ElementError::Transport { stage },
            Failure::StaleNode => ElementError::StaleReference { stage },
        }
    }

    /// The step in which the error arose.
    pub fn step(&self) -> (step: Step)
        ensures
            step == self@.step(),
    {
        match self {
            ElementError::Transport { stage } => stage.step(),
            ElementError::StaleReference { stage } => stage.step(),
            ElementError::UnresolvableNode { .. } => Step::Resolve,
            ElementError::NoMatch { .. } => Step::Query,
        }
    }

    /// The node id that the error is about: the one that the caller
    /// supplied for the step that failed.
    pub fn node_id(&self) -> (node_id: NodeId)
        ensures
            node_id@ == self@.node_id(),
    {
        match self {
            ElementError::Transport { stage } => stage.subject(),
            ElementError::StaleReference { stage } => stage.subject(),
            ElementError::UnresolvableNode { node_id } => *node_id,
            ElementError::NoMatch { node_id, .. } => *node_id,
        }
    }

    /// The selector that the error is about, where the step that failed
    /// had one.
    pub fn selector(&self) -> (selector: Option<&String>)
        ensures
            match selector {
                Some(selector) => self@.selector() == Some(selector@),
                None => self@.selector().is_none(),
            },
    {
        match self {
            ElementError::Transport { stage } => stage.selector(),
            ElementError::StaleReference { stage } => stage.selector(),
            ElementError::UnresolvableNode { .. } => None,
            ElementError::NoMatch { selector, .. } => Some(selector),
        }
    }

    /// Whether a call to the session failed. A caller that only wants to
    /// tell "not there" from "could not ask" branches on this.
    pub fn is_protocol_error(&self) -> (protocol: bool)
        ensures
            protocol == self@.is_protocol_error(),
    {
        match self {
            ElementError::Transport { .. } => true,
            ElementError::StaleReference { .. } => true,
            ElementError::UnresolvableNode { .. } => false,
            ElementError::NoMatch { .. } => false,
        }
    }
}

} // verus!
