//! Building the acknowledgement that a node sends during the handshake.

use crate::messages::ack::{AckMessage, AckMessageView};
use crate::messages::address::{NodeAddress, NodeAddressView};
use crate::utils::config::Config;
use vstd::prelude::*;

verus! {

/// The magnitude of a configured port. The one value whose magnitude does
/// not fit gives the largest port number that does.
pub open spec fn port_magnitude(port: i32) -> i32 {
    if port == i32::MIN {
        i32::MAX
    } else if port < 0 {
        (-port) as i32
    } else {
        port
    }
}

/// The address that a configuration states for this node.
pub open spec fn configured_address(config: Config) -> NodeAddressView {
    NodeAddressView { host_name: config.node_host@, port: port_magnitude(config.node_port) }
}

/// The acknowledgement of success that this node sends under `uid`.
pub open spec fn ack_for(config: Config, uid: Seq<char>) -> AckMessageView {
    AckMessageView {
        uid,
        sender_node_address: configured_address(config),
        success: true,
        source_type: Seq::empty(),
        source_msg_class_name: Seq::empty(),
        source_uid: Seq::empty(),
        source_id: Seq::empty(),
        error_message: Seq::empty(),
        updated_multisig_hex: Seq::empty(),
    }
}

/// The number of characters of an identifier.
pub const UID_LEN: usize = 36;

/// `uuid::Uuid::new_v4()` as text: a random identifier in the hyphenated
/// form, which has 36 characters. Nothing else is known of the value.
#[verifier::external_body]
fn fresh_uid() -> (uid: String)
    ensures
        uid@.len() == UID_LEN,
{
    uuid::Uuid::new_v4().to_string()
}

/// The address of this node as its configuration states it.
pub fn node_address(config: &Config) -> (address: NodeAddress)
    ensures
        address@ == configured_address(*config),
{
    let port: i32 = if config.node_port == i32::MIN {
        i32::MAX
    } else if config.node_port < 0 {
        -config.node_port
    } else {
        config.node_port
    };
    NodeAddress { host_name: config.node_host.clone(), port }
}

/// The acknowledgement of success that this node sends under `uid`.
pub fn build_ack_with_uid(config: &Config, uid: String) -> (ack: AckMessage)
    ensures
        ack@ == ack_for(*config, uid@),
{
    AckMessage {
        uid,
        sender_node_address: node_address(config),
        success: true,
        source_type: String::new(),
        source_msg_class_name: String::new(),
        source_uid: String::new(),
        source_id: String::new(),
        error_message: String::new(),
        updated_multisig_hex: String::new(),
    }
}

/// The acknowledgement of success that this node sends under a fresh
/// random identifier.
pub fn build_ack(config: &Config) -> (ack: AckMessage)
    ensures
        ack@ == ack_for(*config, ack.uid@),
        ack.uid@.len() == UID_LEN,
{
    build_ack_with_uid(config, fresh_uid())
}

} // verus!
