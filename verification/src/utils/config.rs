//! What the node is configured with. The values are loaded elsewhere and
//! handed to the protocol core as they are.

use vstd::prelude::*;

verus! {

/// The node's configuration.
#[derive(Clone, Debug, PartialEq, Eq)]
pub struct Config {
    /// The signing secret: 32 bytes in base64.
    pub secret: String,
    /// The host name under which this node is reached.
    pub node_host: String,
    /// The port under which this node is reached.
    pub node_port: i32,
    /// The version of the application.
    pub version: String,
    /// The version of the peer-to-peer protocol.
    pub p2p_version: String,
}

} // verus!
