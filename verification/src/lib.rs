//! Handles to elements of a remote page, and the protocol that resolves them.
//!
//! A remote DOM node is known under three identifiers: a [`NodeId`] that is
//! valid for one snapshot of the tree, a [`BackendNodeId`] that stays valid
//! while the node is in the document, and a [`RemoteObjectId`] that names the
//! live object bound to the node. An [`Element`] bundles the three together
//! with a shared reference to the session they came from.
//!
//! The library never talks to the session itself. A [`Resolution`] says which
//! [`Command`] has to be sent next, and takes the session's [`Reply`] to decide
//! how to go on: send another command, hand out the finished [`Element`], or
//! fail with an [`ElementError`]. Whoever owns the transport runs that loop.

pub mod element;
pub mod error;
pub mod ids;
pub mod laws;
pub mod protocol;
pub mod session;
pub mod stage;

pub use element::{Element, Progress, Resolution};
pub use error::ElementError;
pub use ids::{BackendNodeId, NodeId, RemoteObjectId, NOT_FOUND};
pub use session::{Command, Failure, Reply, DESCRIBE_DEPTH};
pub use stage::{Stage, Step};
