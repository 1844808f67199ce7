//! Naming the files in which messages are kept.

pub mod persistance_manager;
