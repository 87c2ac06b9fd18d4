//! Core logic for synchronizing a typed component value attached to a logical
//! entity between one authoritative server and any number of clients.
//!
//! The library decides, per entity and per component type, who sends to whom,
//! when a send is warranted, and which of several possibly-out-of-order
//! incoming updates should win.  Transport I/O and the host entity-component
//! runtime stay outside: the per-tick passes here are pure functions from a
//! drained message snapshot and a table of replication bindings to send
//! commands, receive outcomes, and updated bindings.

pub mod pair;
pub mod predicate;
pub mod recv;
pub mod send;
pub mod sync;
pub mod tick;
pub mod types;
