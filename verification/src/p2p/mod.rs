//! The node's side of inbound connections: routing received envelopes to
//! handlers, and the node's onion identity.

pub mod context;
pub mod handlers;
pub mod listener;
pub mod onion_identity;
pub mod peer_exchange;
pub mod router;
