//! What is done with the messages a bootstrap receives.

pub mod bootstrap_processor;
