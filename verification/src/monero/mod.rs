//! Primitives kept for compatibility with Monero tooling.

pub mod chacha8;
