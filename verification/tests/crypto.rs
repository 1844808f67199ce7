use haveno_basic_bootstrap::crypto::ecdsa::{verify, SigningKey};
use haveno_basic_bootstrap::crypto::hash::{sha256, sha3_256};
use haveno_basic_bootstrap::error::{CryptoError, Error};
use haveno_basic_bootstrap::utils::config::Config;
use haveno_basic_bootstrap::utils::encoding::{base64_text, same_bytes};
use haveno_basic_bootstrap::utils::signing::{get_pubkey_hex, load_signing_key};
use k256::ecdsa::signature::Verifier;

fn hex_of(bytes: &[u8]) -> String {
    bytes.iter().map(|b| format!("{:02x}", b)).collect()
}

fn secret_one() -> [u8; 32] {
    let mut secret = [0u8; 32];
    secret[31] = 1;
    secret
}

fn config_with_secret(secret: &str) -> Config {
    Config {
        secret: secret.to_string(),
        node_host: "host.onion".to_string(),
        node_port: 2001,
        version: "1.1.2".to_string(),
        p2p_version: "0X".to_string(),
    }
}

#[test]
fn sha256_of_abc() {
    assert_eq!(
        hex_of(&sha256(b"abc")),
        "ba7816bf8f01cfea414140de5dae2223b00361a396177a9cb410ff61f20015ad"
    );
    assert_eq!(
        hex_of(&sha256(b"")),
        "e3b0c44298fc1c149afbf4c8996fb92427ae41e4649b934ca495991b7852b855"
    );
}

#[test]
fn sha3_256_of_nothing_and_abc() {
    assert_eq!(
        hex_of(&sha3_256(b"")),
        "a7ffc6f8bf1ed76651c14756a061d662f580ff4de43b49fa82d80a4b80f8434a"
    );
    assert_eq!(
        hex_of(&sha3_256(b"abc")),
        "3a985da74fe225b2045c172d6bd390bd855f086e3e9d525b46bfe24511431532"
    );
}

#[test]
fn public_key_of_secret_one_is_the_generator() {
    let key = SigningKey::from_bytes(&secret_one()).unwrap();
    assert_eq!(
        get_pubkey_hex(&key),
        "0279be667ef9dcbbac55a06295ce870b07029bfcdb2dce28d959f2815b16f81798"
    );
    assert_eq!(key.verifying_key_bytes().len(), 33);
    assert_eq!(hex_of(&key.verifying_key_bytes()), get_pubkey_hex(&key));
}

#[test]
fn keys_of_wrong_length_or_value_are_not_loaded() {
    let refused = Error::Crypto(CryptoError::KeyLoad);
    assert_eq!(SigningKey::from_bytes(&[1u8; 31]).err(), Some(refused));
    assert_eq!(SigningKey::from_bytes(&[1u8; 33]).err(), Some(refused));
    assert_eq!(SigningKey::from_bytes(&[]).err(), Some(refused));
    // zero is no secret scalar, nor is anything at or above the group order
    assert_eq!(SigningKey::from_bytes(&[0u8; 32]).err(), Some(refused));
    assert_eq!(SigningKey::from_bytes(&[0xffu8; 32]).err(), Some(refused));
}

#[test]
fn secrets_below_the_group_order_are_keys() {
    let order: [u8; 32] = [
        0xff, 0xff, 0xff, 0xff, 0xff, 0xff, 0xff, 0xff, 0xff, 0xff, 0xff, 0xff, 0xff, 0xff, 0xff,
        0xfe, 0xba, 0xae, 0xdc, 0xe6, 0xaf, 0x48, 0xa0, 0x3b, 0xbf, 0xd2, 0x5e, 0x8c, 0xd0, 0x36,
        0x41, 0x41,
    ];
    let refused = Error::Crypto(CryptoError::KeyLoad);
    assert_eq!(SigningKey::from_bytes(&order).err(), Some(refused));
    let mut above = order;
    above[31] = 0x42;
    assert_eq!(SigningKey::from_bytes(&above).err(), Some(refused));
    let mut below = order;
    below[31] = 0x40;
    assert!(SigningKey::from_bytes(&below).is_ok());
    assert!(SigningKey::from_bytes(&secret_one()).is_ok());
    let mut high_byte_only = [0u8; 32];
    high_byte_only[0] = 0xff;
    assert!(SigningKey::from_bytes(&high_byte_only).is_ok());
}

#[test]
fn signing_key_is_loaded_from_the_configuration() {
    // base64 of 31 zero bytes and a one, with white space around it
    let config = config_with_secret("  AAAAAAAAAAAAAAAAAAAAAAAAAAAAAAAAAAAAAAAAAAE=\n");
    let key = load_signing_key(&config).unwrap();
    assert_eq!(
        get_pubkey_hex(&key),
        "0279be667ef9dcbbac55a06295ce870b07029bfcdb2dce28d959f2815b16f81798"
    );
}

#[test]
fn bad_secrets_are_not_loaded() {
    let refused = Error::Crypto(CryptoError::KeyLoad);
    // not base64
    assert_eq!(load_signing_key(&config_with_secret("!!!")).err(), Some(refused));
    // base64 of three bytes
    assert_eq!(load_signing_key(&config_with_secret("AQID")).err(), Some(refused));
    // base64 of 32 zero bytes: no scalar
    assert_eq!(
        load_signing_key(&config_with_secret("AAAAAAAAAAAAAAAAAAAAAAAAAAAAAAAAAAAAAAAAAAA="))
            .err(),
        Some(refused)
    );
    assert_eq!(load_signing_key(&config_with_secret("")).err(), Some(refused));
}

#[test]
fn signature_verifies_and_is_deterministic() {
    let key = SigningKey::from_bytes(&[0x11u8; 32]).unwrap();
    let public = key.verifying_key_bytes();
    for message in [&b""[..], &b"a"[..], &[0u8; 100][..], &b"payload bytes"[..]] {
        let signature = key.sign(message).unwrap();
        assert!(signature.len() <= 73);
        assert_eq!(signature[0], 0x30);
        assert!(verify(&public, message, &signature));
        assert_eq!(key.sign(message).unwrap(), signature);
    }
}

#[test]
fn signature_agrees_with_the_primitive() {
    let key = SigningKey::from_bytes(&[0x22u8; 32]).unwrap();
    let signature = key.sign(b"message").unwrap();
    let outside = k256::ecdsa::VerifyingKey::from_sec1_bytes(&key.verifying_key_bytes()).unwrap();
    let parsed = k256::ecdsa::Signature::from_der(&signature).unwrap();
    assert!(outside.verify(b"message", &parsed).is_ok());
}

#[test]
fn changed_message_signature_or_key_does_not_verify() {
    let key = SigningKey::from_bytes(&[0x33u8; 32]).unwrap();
    let other = SigningKey::from_bytes(&[0x34u8; 32]).unwrap();
    let public = key.verifying_key_bytes();
    let message = b"the payload".to_vec();
    let signature = key.sign(&message).unwrap();
    assert!(verify(&public, &message, &signature));

    for at in 0..message.len() {
        let mut changed = message.clone();
        changed[at] ^= 0x01;
        assert!(!verify(&public, &changed, &signature), "message byte {}", at);
    }
    for at in 0..signature.len() {
        let mut changed = signature.clone();
        changed[at] ^= 0x01;
        assert!(!verify(&public, &message, &changed), "signature byte {}", at);
    }
    assert!(!verify(&other.verifying_key_bytes(), &message, &signature));
    assert!(!verify(&[], &message, &signature));
    assert!(!verify(&public, &message, &[]));
    assert!(!verify(&public[..32], &message, &signature));
}

#[test]
fn base64_text_reads_back() {
    assert_eq!(base64_text(&[]), Some(String::new()));
    assert_eq!(base64_text(&[1, 2, 3]), Some("AQID".to_string()));
    assert_eq!(base64_text(&[0xff]), Some("/w==".to_string()));
    assert_eq!(base64_text(b"hello"), Some("aGVsbG8=".to_string()));
}

#[test]
fn byte_strings_are_compared_whole() {
    assert!(same_bytes(&[], &[]));
    assert!(same_bytes(&[1, 2], &[1, 2]));
    assert!(!same_bytes(&[1, 2], &[1, 3]));
    assert!(!same_bytes(&[1, 2], &[1]));
    assert!(!same_bytes(&[], &[0]));
}
