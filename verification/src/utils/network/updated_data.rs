//! Building the request for what changed since the first answer.

use crate::codec::{bytes_list_view, copy_byte_strings};
use crate::messages::requests::{GetUpdatedDataRequest, GetUpdatedDataRequestView};
use crate::utils::config::Config;
use crate::utils::network::ack::{configured_address, node_address};
use vstd::prelude::*;

verus! {

/// The request that this node sends under `nonce`, without the entries
/// whose keys are excluded.
pub open spec fn updated_data_request_for(
    config: Config,
    nonce: i32,
    excluded_keys: Seq<Seq<u8>>,
) -> GetUpdatedDataRequestView {
    GetUpdatedDataRequestView {
        sender_node_address: configured_address(config),
        nonce,
        excluded_keys,
        version: config.version@,
    }
}

/// The request for an update: this node's address, a nonce of its own,
/// the version that the configuration states and the caller's excluded
/// keys.
pub fn build_get_updated_data(config: &Config, nonce: i32, excluded_keys: &Vec<Vec<u8>>) -> (request:
    GetUpdatedDataRequest)
    ensures
        request@ == updated_data_request_for(*config, nonce, bytes_list_view(excluded_keys@)),
{
    GetUpdatedDataRequest {
        sender_node_address: node_address(config),
        nonce,
        excluded_keys: copy_byte_strings(excluded_keys),
        version: config.version.clone(),
    }
}

} // verus!
