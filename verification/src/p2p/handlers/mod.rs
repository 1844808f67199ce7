//! The handlers this node registers.

pub mod add_data;
