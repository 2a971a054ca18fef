//! A broadcast chat relay: every text frame a client sends is relayed, tagged
//! with the sender's address, to every connected client.
//!
//! The library holds the relay's logic: the wire texts, the shared broadcast
//! bus handle and the per-connection session state machine. The program that
//! owns sockets and tasks drives a `Session` with the events it observes and
//! performs the actions that the session hands back.

pub mod bus;
pub mod message;
pub mod session;
