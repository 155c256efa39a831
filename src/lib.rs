//! Bitcoin peer-to-peer handshake initiator.
//!
//! The library holds the logic of a `version`/`verack` handshake: the
//! messages this client sends, the reassembly of frames from a byte stream,
//! the handshake state machine, and the per-node report of a run over many
//! nodes. Sockets, timers and tasks belong to the program around it, which
//! performs what the state machines ask for and hands back what happened.

pub mod message;
pub mod connection;
pub mod client;
pub mod client_pool;
pub mod parser_arguments;
