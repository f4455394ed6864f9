//! Core of a dynamic TCP listener manager.
//!
//! A control plane opens and closes listening ports at runtime; a data plane
//! accepts connections on each open port and runs a small framed protocol over
//! each stream, echoing a fixed reply to a recognized probe message.
//!
//! This crate holds the decision logic of that machinery: the wire protocol
//! over each stream (`protocol`), the shared record of actively serving ports
//! (`registry`), the broadcast-based cancellation mechanism (`cancel`), and
//! the command dispatcher and per-port accept-loop steps (`control`, `accept`).
//! The surrounding process — sockets, threads, the HTTP control plane — drives
//! these functions and performs the I/O they decide on.

pub mod accept;
pub mod cancel;
pub mod control;
pub mod protocol;
pub mod registry;
