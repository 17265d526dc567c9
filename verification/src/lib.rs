//! Supervision of the backend daemon and the client side of its line-based
//! JSON-RPC protocol: the decisions, with the I/O left to the caller.

pub mod branch;
pub mod daemon;
pub mod daemon_client;
pub mod logs;
pub mod text;
pub mod theme;
