//! Building what the node publishes: its filter and the signed entries
//! that carry payloads into the network.

pub mod filter;
pub mod add_data;
