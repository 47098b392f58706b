//! A text-based multi-user chat server, as a verified core.
//!
//! The crate holds the data model, the command parser and the server's
//! state machine. Every function states what it returns or changes, and
//! Verus proves that it does. Sockets, tasks and queues live with the caller.

pub mod common;
pub mod npcs;
pub mod parser;
pub mod server;
pub mod text;
pub mod time;
pub mod watcher;
