//! The client side of the daemon's protocol: newline-delimited JSON-RPC
//! over a local socket, with long-lived subscriptions on connections of
//! their own.
//!
//! The caller owns the sockets and turns records into JSON and back. A call
//! is built by one of the methods of `client::DaemonClient`, put into its
//! envelope by `DaemonClient::send_rpc_request`, framed by
//! `connection::Connection::send_request`, and its answer goes through
//! `Connection::receive_reply`, `DaemonClient::interpret_response` and
//! `DaemonClient::decode_result`. A subscription is registered in a
//! `subscriptions::SubscriptionManager`, and everything that happens on its
//! stream is reported to `SubscriptionManager::handle_subscription`, which
//! answers with what to do next.

pub mod client;
pub mod connection;
pub mod error;
pub mod json;
pub mod subscriptions;
pub mod types;
