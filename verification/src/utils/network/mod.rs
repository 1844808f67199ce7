//! Moving envelopes over a byte stream, and building the messages of the
//! handshake.

pub mod ack;
pub mod envelope;
pub mod framing;
pub mod message_processors;
pub mod stream;
pub mod updated_data;
