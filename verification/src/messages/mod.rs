//! The messages of the overlay and their canonical byte form.
//!
//! Every message is a record of numbered fields in a fixed order; a nested
//! message travels as the bytes of its own record.

pub mod ack;
pub mod address;
pub mod envelope;
pub mod filter;
pub mod requests;
pub mod response;
pub mod storage;
