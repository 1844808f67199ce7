//! A minimal peer node for an onion-routed gossip overlay.
//!
//! The node bootstraps against a seed node, exchanges data snapshots with
//! it and publishes signed entries into the network's replicated store.
//! This library is the protocol engine:
//!
//! - [`varint`], [`wire`], [`codec`] and [`messages`]: the messages and
//!   their canonical bytes;
//! - [`utils::network`]: frames on a byte stream, and the messages of the
//!   handshake;
//! - [`events::bootstrap`]: the client side of the bootstrap handshake;
//! - [`builders`]: the signed entries a node publishes, and their check;
//! - [`p2p`]: routing of received envelopes, the onion identity, the
//!   list of peers;
//! - [`crypto`]: the digests and signatures underneath.
//!
//! The library owns no socket and no file: whoever
//! uses it performs the reads and writes and hands the bytes over.

pub mod builders;
pub mod codec;
pub mod crypto;
pub mod error;
pub mod events;
pub mod messages;
pub mod monero;
pub mod p2p;
pub mod utils;
pub mod varint;
pub mod wire;
