//! A single-threaded, readiness-driven connection multiplexer core.
//!
//! The library holds the verified logic of the reactor: the fixed-capacity
//! request buffer with its terminator scan, the canned response, the
//! per-connection state machine, the connection table, the readiness
//! registration table, and the cleanup set.
//! The surrounding binary performs the socket and readiness I/O and feeds
//! the observed outcomes into these types.

pub mod cleanup;
pub mod conn;
pub mod laws;
pub mod registry;
pub mod request;
pub mod response;
pub mod table;
