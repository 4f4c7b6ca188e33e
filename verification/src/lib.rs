//! A runtime for nodes that speak a line-delimited JSON protocol over their
//! standard input and output.
//!
//! A node process reads one envelope per line, performs a handshake on the
//! first, builds its node from the identity that the handshake gives, hands
//! the node every further envelope in the order of arrival, and writes what
//! the node submits in the order of submission. This crate holds the rules of
//! that life: the envelope codec ([`codec`]), the handshake ([`init`]), the
//! contract of a node ([`node`]), and the process as a state machine
//! ([`runtime`], [`process`]). Reading and writing the streams is left to the
//! caller.

pub mod codec;
pub mod decimal;
pub mod echo;
pub mod error;
pub mod init;
pub mod json;
pub mod message;
pub mod names;
pub mod node;
pub mod process;
pub mod runtime;
pub mod unique_id;

pub use crate::error::Fault;
pub use crate::message::{Message, MessageBody, MessageIdentifier, NodeIdentifier, Payload};
pub use crate::node::{Inbox, Node, Outbox};
pub use crate::process::{run_node, Transcript};
pub use crate::runtime::{Event, Runtime, Step, Verdict};
