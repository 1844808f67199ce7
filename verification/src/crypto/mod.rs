//! Digests, signatures and proof of work.

pub mod ecdsa;
pub mod ed25519;
pub mod hash;
pub mod randomx_pow;
