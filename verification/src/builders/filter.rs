//! Building the node's filter and sealing it with the node's signature.

use crate::codec::text_list_view;
use crate::crypto::ecdsa::{spec_ecdsa_sign, spec_ecdsa_verify, spec_public_key, SigningKey};
use crate::crypto::hash::{sha256, spec_sha256};
use crate::error::{CryptoError, Error};
use crate::messages::filter::{
    account_filter_list_view, extra_entry_list_view, ExtraDataEntryView, Filter, FilterView,
    PaymentAccountFilterView,
};
use crate::utils::clock::now_seconds;
use crate::utils::config::Config;
use crate::utils::signing::{configured_secret, load_signing_key};
use crate::utils::encoding::{base64_reads_back, base64_text, spec_base64, spec_base64_decode};
use vstd::prelude::*;

verus! {

/// The filter that bans nothing, names no service node and switches
/// nothing off, created at `creation_date`.
pub open spec fn empty_filter(creation_date: i64) -> FilterView {
    FilterView {
        node_addresses_banned_from_trading: Seq::empty(),
        banned_offer_ids: Seq::empty(),
        banned_payment_accounts: Seq::empty(),
        signature_as_base64: Seq::empty(),
        owner_pub_key_bytes: Seq::empty(),
        extra_data: Seq::empty(),
        banned_currencies: Seq::empty(),
        banned_payment_methods: Seq::empty(),
        arbitrators: Seq::empty(),
        seed_nodes: Seq::empty(),
        price_relay_nodes: Seq::empty(),
        prevent_public_xmr_network: false,
        xmr_nodes: Seq::empty(),
        disable_trade_below_version: Seq::empty(),
        mediators: Seq::empty(),
        refund_agents: Seq::empty(),
        banned_signer_pub_keys: Seq::empty(),
        xmr_fee_receiver_addresses: Seq::empty(),
        creation_date: creation_date,
        signer_pub_key_as_hex: Seq::empty(),
        banned_privileged_dev_pub_keys: Seq::empty(),
        disable_auto_conf: false,
        banned_auto_conf_explorers: Seq::empty(),
        node_addresses_banned_from_network: Seq::empty(),
        disable_api: false,
        disable_mempool_validation: false,
    }
}

/// The signature of a filter: made over the SHA-256 digest of its
/// canonical bytes. A filter carries its signature as base64 text, so a
/// signature whose text would not read back is none.
pub open spec fn spec_filter_signature(secret: Seq<u8>, filter: FilterView) -> Option<Seq<u8>> {
    match spec_ecdsa_sign(secret, spec_sha256(filter.encode())) {
        Some(signature) => if base64_reads_back(signature) {
            Some(signature)
        } else {
            None
        },
        None => None,
    }
}

/// A filter with its signature in base64 and the key that made it.
pub open spec fn sealed_filter(filter: FilterView, signature: Seq<u8>, public_key: Seq<u8>) -> FilterView {
    FilterView {
        signature_as_base64: spec_base64(signature),
        owner_pub_key_bytes: public_key,
        ..filter
    }
}

/// The empty filter created at `creation_date`, in seconds since the
/// epoch.
pub fn build_filter_at(creation_date: i64) -> (filter: Filter)
    ensures
        filter@ == empty_filter(creation_date),
{
    let filter = Filter {
        node_addresses_banned_from_trading: Vec::new(),
        banned_offer_ids: Vec::new(),
        banned_payment_accounts: Vec::new(),
        signature_as_base64: String::new(),
        owner_pub_key_bytes: Vec::new(),
        extra_data: Vec::new(),
        banned_currencies: Vec::new(),
        banned_payment_methods: Vec::new(),
        arbitrators: Vec::new(),
        seed_nodes: Vec::new(),
        price_relay_nodes: Vec::new(),
        prevent_public_xmr_network: false,
        xmr_nodes: Vec::new(),
        disable_trade_below_version: String::new(),
        mediators: Vec::new(),
        refund_agents: Vec::new(),
        banned_signer_pub_keys: Vec::new(),
        xmr_fee_receiver_addresses: Vec::new(),
        creation_date: creation_date,
        signer_pub_key_as_hex: String::new(),
        banned_privileged_dev_pub_keys: Vec::new(),
        disable_auto_conf: false,
        banned_auto_conf_explorers: Vec::new(),
        node_addresses_banned_from_network: Vec::new(),
        disable_api: false,
        disable_mempool_validation: false,
    };
    proof {
        assert(account_filter_list_view(filter.banned_payment_accounts@) =~= Seq::<
            PaymentAccountFilterView,
        >::empty());
        assert(extra_entry_list_view(filter.extra_data@) =~= Seq::<ExtraDataEntryView>::empty());
        assert(text_list_view(filter.node_addresses_banned_from_trading@) =~= Seq::<Seq<char>>::empty());
        assert(text_list_view(filter.banned_offer_ids@) =~= Seq::<Seq<char>>::empty());
        assert(text_list_view(filter.banned_currencies@) =~= Seq::<Seq<char>>::empty());
        assert(text_list_view(filter.banned_payment_methods@) =~= Seq::<Seq<char>>::empty());
        assert(text_list_view(filter.arbitrators@) =~= Seq::<Seq<char>>::empty());
        assert(text_list_view(filter.seed_nodes@) =~= Seq::<Seq<char>>::empty());
        assert(text_list_view(filter.price_relay_nodes@) =~= Seq::<Seq<char>>::empty());
        assert(text_list_view(filter.xmr_nodes@) =~= Seq::<Seq<char>>::empty());
        assert(text_list_view(filter.mediators@) =~= Seq::<Seq<char>>::empty());
        assert(text_list_view(filter.refund_agents@) =~= Seq::<Seq<char>>::empty());
        assert(text_list_view(filter.banned_signer_pub_keys@) =~= Seq::<Seq<char>>::empty());
        assert(text_list_view(filter.xmr_fee_receiver_addresses@) =~= Seq::<Seq<char>>::empty());
        assert(text_list_view(filter.banned_privileged_dev_pub_keys@) =~= Seq::<Seq<char>>::empty());
        assert(text_list_view(filter.banned_auto_conf_explorers@) =~= Seq::<Seq<char>>::empty());
        assert(text_list_view(filter.node_addresses_banned_from_network@) =~= Seq::<Seq<char>>::empty());
    }
    filter
}

/// The empty filter created now.
pub fn build_filter() -> (filter: Filter)
    ensures
        filter@ == empty_filter(filter.creation_date),
{
    build_filter_at(now_seconds())
}

/// Signs the SHA-256 digest of the filter's canonical bytes. Gives the
/// signature in base64 and the public key of the signer. The text reads
/// back as the signature, and the signature verifies under that key.
pub fn sign_filter(filter: &Filter, key: &SigningKey) -> (signed: Result<(String, Vec<u8>), Error>)
    requires
        key.wf(),
    ensures
        match spec_filter_signature(key.secret(), filter@) {
            Some(signature) => signed is Ok && signed->Ok_0.0@ == spec_base64(signature)
                && spec_base64_decode(signed->Ok_0.0@) == Some(signature) && signed->Ok_0.1@
                == key.public() && spec_ecdsa_verify(
                key.public(),
                spec_sha256(filter@.encode()),
                signature,
            ),
            None => signed == Err::<(String, Vec<u8>), Error>(
                Error::Crypto(CryptoError::SignFailure),
            ),
        },
{
    let bytes = filter.to_bytes();
    let digest = sha256(bytes.as_slice());
    match key.sign(digest.as_slice()) {
        Ok(signature) => match base64_text(signature.as_slice()) {
            Some(text) => Ok((text, key.verifying_key_bytes())),
            None => Err(Error::Crypto(CryptoError::SignFailure)),
        },
        Err(err) => Err(err),
    }
}

/// The empty filter created at `creation_date`, sealed with the signature
/// of `key`.
pub fn build_signed_filter_at(key: &SigningKey, creation_date: i64) -> (built: Result<
    Filter,
    Error,
>)
    requires
        key.wf(),
    ensures
        match spec_filter_signature(key.secret(), empty_filter(creation_date)) {
            Some(signature) => built is Ok && built->Ok_0@ == sealed_filter(
                empty_filter(creation_date),
                signature,
                key.public(),
            ),
            None => built is Err && built->Err_0 == Error::Crypto(CryptoError::SignFailure),
        },
{
    let mut filter = build_filter_at(creation_date);
    match sign_filter(&filter, key) {
        Ok((signature_base64, public_key)) => {
            filter.signature_as_base64 = signature_base64;
            filter.owner_pub_key_bytes = public_key;
            Ok(filter)
        },
        Err(err) => Err(err),
    }
}

/// The empty filter created now, sealed with the signature of `key`.
pub fn build_signed_filter(key: &SigningKey) -> (built: Result<Filter, Error>)
    requires
        key.wf(),
    ensures
        match built {
            Ok(filter) => {
                let unsigned = empty_filter(filter.creation_date);
                &&& spec_filter_signature(key.secret(), unsigned) is Some
                &&& filter@ == sealed_filter(
                    unsigned,
                    spec_filter_signature(key.secret(), unsigned)->Some_0,
                    key.public(),
                )
            },
            Err(err) => err == Error::Crypto(CryptoError::SignFailure),
        },
{
    build_signed_filter_at(key, now_seconds())
}

/// The empty filter created now, sealed with the signature of the key
/// that the configuration states. There is no filter where the
/// configuration states no usable key, nor where signing fails.
pub fn build_signed_filter_with_config(config: &Config) -> (built: Result<Filter, Error>)
    ensures
        match configured_secret(*config) {
            None => built is Err && built->Err_0 == Error::Crypto(CryptoError::KeyLoad),
            Some(secret) => match built {
                Ok(filter) => {
                    let unsigned = empty_filter(filter.creation_date);
                    &&& spec_filter_signature(secret, unsigned) is Some
                    &&& filter@ == sealed_filter(
                        unsigned,
                        spec_filter_signature(secret, unsigned)->Some_0,
                        spec_public_key(secret),
                    )
                },
                Err(reason) => reason == Error::Crypto(CryptoError::SignFailure),
            },
        },
{
    match load_signing_key(config) {
        Ok(key) => build_signed_filter(&key),
        Err(reason) => Err(reason),
    }
}

} // verus!
