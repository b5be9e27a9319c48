//! A small end-to-end-encrypted group chat core.
//!
//! The crate holds the protocol logic of a peer-to-peer group conversation:
//! the group-session state machine, the wire-message classifier that drives
//! it from raw network bytes, the command parser for the interactive surface,
//! and the membership bookkeeping of the broadcast layer.  The cryptographic
//! group-key agreement itself is performed by the `openmls` crate behind
//! narrow trusted wrappers; network transport and discovery stay outside the
//! library altogether and only hand raw byte payloads in and out.

pub mod commands;
pub mod crypto;
pub mod dispatch;
pub mod netview;
pub mod node;
pub mod wire;
