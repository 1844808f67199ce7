//! Configuration, message building, framing and signing helpers.

pub mod clock;
pub mod config;
pub mod encoding;
pub mod network;
pub mod signing;
pub mod storage;
pub mod text;
