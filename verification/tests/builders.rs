use base64::Engine;
use haveno_basic_bootstrap::builders::add_data::{
    build_add_data_message, build_add_data_message_at, build_signed_add_data_message,
    build_signed_add_data_message_with_config, sign_storage_payload, verify, verify_entry,
};
use haveno_basic_bootstrap::builders::filter::{
    build_filter, build_filter_at, build_signed_filter, build_signed_filter_at,
    build_signed_filter_with_config, sign_filter,
};
use haveno_basic_bootstrap::error::{CryptoError, Error};
use haveno_basic_bootstrap::crypto::ecdsa::{verify as verify_digest_signature, SigningKey};
use haveno_basic_bootstrap::crypto::hash::sha256;
use haveno_basic_bootstrap::messages::filter::{ExtraDataEntry, Filter, PaymentAccountFilter};
use haveno_basic_bootstrap::messages::storage::{
    AddDataMessage, ProtectedStorageEntry, StorageEntryWrapper, StoragePayload,
};
use haveno_basic_bootstrap::utils::config::Config;
use haveno_basic_bootstrap::utils::network::ack::{build_ack, build_ack_with_uid, node_address};
use haveno_basic_bootstrap::utils::network::updated_data::build_get_updated_data;

fn key() -> SigningKey {
    SigningKey::from_bytes(&[0x66u8; 32]).unwrap()
}

fn entry_of(message: &AddDataMessage) -> &ProtectedStorageEntry {
    let StorageEntryWrapper::ProtectedStorageEntry(entry) = &message.entry;
    entry
}

fn config(port: i32) -> Config {
    Config {
        secret: String::new(),
        node_host: "me.onion".to_string(),
        node_port: port,
        version: "1.1.2".to_string(),
        p2p_version: "0X".to_string(),
    }
}

#[test]
fn empty_filter_has_nothing_but_its_date() {
    let filter = build_filter_at(1_700_000_000);
    let expected = Filter {
        node_addresses_banned_from_trading: vec![],
        banned_offer_ids: vec![],
        banned_payment_accounts: vec![],
        signature_as_base64: String::new(),
        owner_pub_key_bytes: vec![],
        extra_data: vec![],
        banned_currencies: vec![],
        banned_payment_methods: vec![],
        arbitrators: vec![],
        seed_nodes: vec![],
        price_relay_nodes: vec![],
        prevent_public_xmr_network: false,
        xmr_nodes: vec![],
        disable_trade_below_version: String::new(),
        mediators: vec![],
        refund_agents: vec![],
        banned_signer_pub_keys: vec![],
        xmr_fee_receiver_addresses: vec![],
        creation_date: 1_700_000_000,
        signer_pub_key_as_hex: String::new(),
        banned_privileged_dev_pub_keys: vec![],
        disable_auto_conf: false,
        banned_auto_conf_explorers: vec![],
        node_addresses_banned_from_network: vec![],
        disable_api: false,
        disable_mempool_validation: false,
    };
    assert_eq!(filter, expected);
    let now = build_filter();
    assert!(now.creation_date > 1_600_000_000);
    assert_eq!(now, build_filter_at(now.creation_date));
}

#[test]
fn filter_round_trips_with_every_field_set() {
    let names = |prefix: &str| vec![format!("{}-1", prefix), format!("{}-2", prefix)];
    let filter = Filter {
        node_addresses_banned_from_trading: names("a"),
        banned_offer_ids: names("b"),
        banned_payment_accounts: vec![
            PaymentAccountFilter {
                payment_method_id: "SEPA".to_string(),
                get_method_name: "getIban".to_string(),
                value: "DE00".to_string(),
            },
            PaymentAccountFilter {
                payment_method_id: String::new(),
                get_method_name: String::new(),
                value: String::new(),
            },
        ],
        signature_as_base64: "c2ln".to_string(),
        owner_pub_key_bytes: vec![1, 2, 3],
        extra_data: vec![
            ExtraDataEntry { key: "k".to_string(), value: "v".to_string() },
            ExtraDataEntry { key: "".to_string(), value: "ü".to_string() },
        ],
        banned_currencies: names("c"),
        banned_payment_methods: names("d"),
        arbitrators: names("e"),
        seed_nodes: names("f"),
        price_relay_nodes: names("g"),
        prevent_public_xmr_network: true,
        xmr_nodes: names("h"),
        disable_trade_below_version: "1.0.0".to_string(),
        mediators: names("i"),
        refund_agents: names("j"),
        banned_signer_pub_keys: names("k"),
        xmr_fee_receiver_addresses: names("l"),
        creation_date: -1,
        signer_pub_key_as_hex: "02ab".to_string(),
        banned_privileged_dev_pub_keys: names("m"),
        disable_auto_conf: true,
        banned_auto_conf_explorers: names("n"),
        node_addresses_banned_from_network: names("o"),
        disable_api: true,
        disable_mempool_validation: true,
    };
    let bytes = filter.to_bytes();
    assert_eq!(Filter::from_bytes(&bytes), Some(filter.clone()));
    assert_eq!(filter.duplicate(), filter);
    assert_eq!(Filter::from_bytes(&bytes[..bytes.len() - 1]), None);
}

#[test]
fn filter_signature_is_over_the_digest_of_its_bytes() {
    let filter = build_filter_at(42);
    let (signature_base64, public_key) = sign_filter(&filter, &key()).unwrap();
    assert_eq!(public_key, key().verifying_key_bytes());
    let signature = base64::engine::general_purpose::STANDARD.decode(&signature_base64).unwrap();
    assert_eq!(signature, key().sign(&sha256(&filter.to_bytes())).unwrap());
    assert!(verify_digest_signature(&public_key, &sha256(&filter.to_bytes()), &signature));
    assert!(!verify_digest_signature(
        &public_key,
        &sha256(&build_filter_at(43).to_bytes()),
        &signature
    ));
}

#[test]
fn signed_filter_carries_signature_and_owner() {
    let signed = build_signed_filter_at(&key(), 42).unwrap();
    let (signature_base64, public_key) = sign_filter(&build_filter_at(42), &key()).unwrap();
    let mut expected = build_filter_at(42);
    expected.signature_as_base64 = signature_base64;
    expected.owner_pub_key_bytes = public_key;
    assert_eq!(signed, expected);
    assert!(!signed.signature_as_base64.is_empty());

    let now = build_signed_filter(&key()).unwrap();
    assert_eq!(now, build_signed_filter_at(&key(), now.creation_date).unwrap());
}

#[test]
fn payload_signature_comes_in_base64_with_the_public_key() {
    let payload = StoragePayload::AccountAgeWitness(vec![1, 2, 3]);
    let (signature_base64, public_key) = sign_storage_payload(&payload, &key()).unwrap();
    let signature = base64::engine::general_purpose::STANDARD.decode(&signature_base64).unwrap();
    assert_eq!(public_key, key().verifying_key_bytes());
    assert!(verify(&public_key, &payload, &signature));
    assert!(!verify(&public_key, &StoragePayload::AccountAgeWitness(vec![1, 2, 4]), &signature));
    assert!(!verify(&public_key, &StoragePayload::SignedWitness(vec![1, 2, 3]), &signature));
}

#[test]
fn built_entry_is_as_given_and_verifies() {
    let payload = StoragePayload::Filter(build_filter_at(7));
    let message = build_add_data_message_at(payload.clone(), &key(), 9, -3).unwrap();
    let entry = entry_of(&message);
    assert_eq!(entry.storage_payload, payload);
    assert_eq!(entry.owner_pub_key_bytes, key().verifying_key_bytes());
    assert_eq!(entry.sequence_number, 9);
    assert_eq!(entry.creation_time_stamp, -3);
    assert_eq!(entry.signature, key().sign(&sha256(&payload.to_bytes())).unwrap());
    assert!(verify_entry(entry));
    assert!(verify(&entry.owner_pub_key_bytes, &entry.storage_payload, &entry.signature));
}

#[test]
fn entries_built_now_carry_the_time() {
    let payload = StoragePayload::TradeStatistics3(vec![5; 10]);
    let first = build_add_data_message(payload.clone(), &key(), 1).unwrap();
    let second = build_signed_add_data_message(payload.clone(), &key(), 2).unwrap();
    assert!(entry_of(&first).creation_time_stamp > 1_600_000_000_000);
    assert!(entry_of(&second).creation_time_stamp >= entry_of(&first).creation_time_stamp);
    assert_eq!(entry_of(&second).sequence_number, 2);
    assert_eq!(
        first,
        build_add_data_message_at(payload, &key(), 1, entry_of(&first).creation_time_stamp)
            .unwrap()
    );
    assert!(verify_entry(entry_of(&second)));
}

#[test]
fn tampered_entry_does_not_verify() {
    let payload = StoragePayload::Filter(build_filter_at(7));
    let message = build_add_data_message_at(payload, &key(), 1, 0).unwrap();
    let entry = entry_of(&message).clone();

    let mut other_payload = entry.clone();
    other_payload.storage_payload = StoragePayload::Filter(build_filter_at(8));
    assert!(!verify_entry(&other_payload));

    let mut other_owner = entry.clone();
    other_owner.owner_pub_key_bytes =
        SigningKey::from_bytes(&[0x67u8; 32]).unwrap().verifying_key_bytes();
    assert!(!verify_entry(&other_owner));

    let mut other_signature = entry.clone();
    let last = other_signature.signature.len() - 1;
    other_signature.signature[last] ^= 0x80;
    assert!(!verify_entry(&other_signature));

    // what is not signed may change
    let mut later = entry.clone();
    later.sequence_number = 2;
    later.creation_time_stamp = 99;
    assert!(verify_entry(&later));
}

#[test]
fn node_address_takes_the_magnitude_of_the_port() {
    assert_eq!(node_address(&config(2001)).port, 2001);
    assert_eq!(node_address(&config(-2001)).port, 2001);
    assert_eq!(node_address(&config(0)).port, 0);
    assert_eq!(node_address(&config(i32::MAX)).port, i32::MAX);
    assert_eq!(node_address(&config(i32::MIN)).port, i32::MAX);
    assert_eq!(node_address(&config(1)).host_name, "me.onion");
}

#[test]
fn ack_is_a_success_from_this_node() {
    let ack = build_ack_with_uid(&config(-80), "uid-7".to_string());
    assert_eq!(ack.uid, "uid-7");
    assert_eq!(ack.sender_node_address, node_address(&config(80)));
    assert!(ack.success);
    assert_eq!(ack.source_type, "");
    assert_eq!(ack.source_msg_class_name, "");
    assert_eq!(ack.source_uid, "");
    assert_eq!(ack.source_id, "");
    assert_eq!(ack.error_message, "");
    assert_eq!(ack.updated_multisig_hex, "");

    let fresh = build_ack(&config(80));
    assert_eq!(fresh.uid.len(), 36);
    assert_ne!(fresh.uid, build_ack(&config(80)).uid);
    assert_eq!(fresh, build_ack_with_uid(&config(80), fresh.uid.clone()));
}

#[test]
fn update_request_carries_nonce_keys_and_version() {
    let keys = vec![vec![1u8; 20], vec![2u8; 20]];
    let request = build_get_updated_data(&config(-9), 3424, &keys);
    assert_eq!(request.nonce, 3424);
    assert_eq!(request.excluded_keys, keys);
    assert_eq!(request.version, "1.1.2");
    assert_eq!(request.sender_node_address.host_name, "me.onion");
    assert_eq!(request.sender_node_address.port, 9);
}

#[test]
fn builders_take_the_key_from_the_configuration() {
    // base64 of 32 bytes 0x66, the secret of `key()`
    let mut configured = config(1);
    configured.secret = "ZmZmZmZmZmZmZmZmZmZmZmZmZmZmZmZmZmZmZmZmZmY=".to_string();

    let filter = build_signed_filter_with_config(&configured).unwrap();
    assert_eq!(filter, build_signed_filter_at(&key(), filter.creation_date).unwrap());

    let payload = StoragePayload::SignedWitness(vec![1, 2]);
    let message =
        build_signed_add_data_message_with_config(&configured, payload.clone(), 4).unwrap();
    let entry = entry_of(&message);
    assert_eq!(entry.owner_pub_key_bytes, key().verifying_key_bytes());
    assert_eq!(entry.sequence_number, 4);
    assert_eq!(entry.storage_payload, payload);
    assert!(verify_entry(entry));
}

#[test]
fn builders_refuse_a_configuration_without_a_key() {
    let refused = Some(Error::Crypto(CryptoError::KeyLoad));
    assert_eq!(build_signed_filter_with_config(&config(1)).err(), refused);
    let payload = StoragePayload::SignedWitness(vec![1, 2]);
    assert_eq!(build_signed_add_data_message_with_config(&config(1), payload, 1).err(), refused);
}

#[test]
fn account_filter_has_the_expected_bytes() {
    let filter = PaymentAccountFilter {
        payment_method_id: "a".to_string(),
        get_method_name: "b".to_string(),
        value: "c".to_string(),
    };
    let bytes = filter.to_bytes();
    assert_eq!(bytes, vec![0x0a, 1, b'a', 0x12, 1, b'b', 0x1a, 1, b'c']);
    assert_eq!(PaymentAccountFilter::from_bytes(&bytes), Some(filter));
    assert_eq!(PaymentAccountFilter::from_bytes(&bytes[..6]), None);

    let entry = ExtraDataEntry { key: "k".to_string(), value: "v".to_string() };
    assert_eq!(entry.to_bytes(), vec![0x0a, 1, b'k', 0x12, 1, b'v']);
    assert_eq!(ExtraDataEntry::from_bytes(&entry.to_bytes()), Some(entry));
}
