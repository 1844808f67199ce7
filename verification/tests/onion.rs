use haveno_basic_bootstrap::p2p::onion_identity::{
    generate_keypair, get_onion_address, keypair_from_secret, prove_liveness,
    public_key_of_address, sign_nonce, verify_signature, OnionIdentity,
};
use sha3::Digest;

fn expected_address(public_key: &[u8; 32]) -> String {
    let mut hasher = sha3::Sha3_256::new();
    hasher.update(b".onion checksum");
    hasher.update(public_key);
    hasher.update([0x03]);
    let hash = hasher.finalize();
    let mut bytes = public_key.to_vec();
    bytes.extend_from_slice(&hash[..2]);
    bytes.push(0x03);
    data_encoding::BASE32_NOPAD.encode(&bytes).to_lowercase() + ".onion"
}

#[test]
fn address_is_base32_of_key_checksum_and_version() {
    for public_key in [[0u8; 32], [0xffu8; 32], [0x5au8; 32]] {
        let address = get_onion_address(&public_key);
        assert_eq!(address, expected_address(&public_key));
        assert_eq!(address.len(), 62);
        assert!(address.ends_with(".onion"));
        assert!(address[..56].chars().all(|c| c.is_ascii_lowercase() || ('2'..='7').contains(&c)));
        // the version byte is the last of 35 bytes: the address ends in "d"
        assert!(address.ends_with("d.onion"));
    }
    assert!(get_onion_address(&[0u8; 32]).starts_with("aaaaaaaaaaaaaaaaaaaaaaaaaaaaaaaaaaaaaaaaaaaaaaaaaaa"));
}

#[test]
fn signature_over_a_nonce_proves_control_of_the_address() {
    let keypair = keypair_from_secret(&[7u8; 32]);
    assert_eq!(keypair.secret, [7u8; 32]);
    let address = get_onion_address(&keypair.public);
    let nonce = b"challenge-123";
    let signature = sign_nonce(&keypair.secret, nonce);
    assert_eq!(signature.len(), 64);
    assert_eq!(sign_nonce(&keypair.secret, nonce), signature);
    assert!(verify_signature(&address, nonce, &signature));

    assert!(!verify_signature(&address, b"challenge-124", &signature));
    let mut changed = signature.clone();
    changed[10] ^= 1;
    assert!(!verify_signature(&address, nonce, &changed));
    let other = get_onion_address(&keypair_from_secret(&[8u8; 32]).public);
    assert!(!verify_signature(&other, nonce, &signature));
}

#[test]
fn address_is_read_in_any_case_and_without_suffix() {
    let keypair = keypair_from_secret(&[9u8; 32]);
    let address = get_onion_address(&keypair.public);
    let signature = sign_nonce(&keypair.secret, b"n");
    let bare = address.trim_end_matches(".onion").to_string();
    assert!(verify_signature(&bare, b"n", &signature));
    assert!(verify_signature(&bare.to_uppercase(), b"n", &signature));
    assert!(verify_signature(&format!("{}.onion.onion", bare), b"n", &signature));
}

#[test]
fn what_cannot_be_read_proves_nothing() {
    let keypair = keypair_from_secret(&[9u8; 32]);
    let address = get_onion_address(&keypair.public);
    let signature = sign_nonce(&keypair.secret, b"n");
    assert!(!verify_signature("", b"n", &signature));
    assert!(!verify_signature(".onion", b"n", &signature));
    assert!(!verify_signature("not base32!.onion", b"n", &signature));
    // base32 of fewer than 32 bytes
    assert!(!verify_signature("mfrgg.onion", b"n", &signature));
    assert!(!verify_signature(&address, b"n", &[]));
    assert!(!verify_signature(&address, b"n", &signature[..63]));
    assert!(!verify_signature(&address, b"n", &[0xffu8; 64]));
}

#[test]
fn generated_identities_differ_and_work() {
    let first = generate_keypair();
    let second = generate_keypair();
    assert_ne!(first.secret, second.secret);
    assert_eq!(keypair_from_secret(&first.secret), first);

    let identity = OnionIdentity::generate();
    let address = identity.address();
    assert_eq!(address, get_onion_address(&identity.keypair.public));
    let signature = identity.sign_liveness(b"ping");
    assert!(verify_signature(&address, b"ping", &signature));
}

#[test]
fn address_reads_back_as_the_key() {
    for secret in [[1u8; 32], [0x80u8; 32], [0xffu8; 32]] {
        let keypair = keypair_from_secret(&secret);
        let address = get_onion_address(&keypair.public);
        assert_eq!(public_key_of_address(&address), Some(keypair.public.to_vec()));
    }
    assert_eq!(public_key_of_address("mfrgg.onion"), None);
    assert_eq!(public_key_of_address("?.onion"), None);
    assert_eq!(public_key_of_address(""), None);
}

#[test]
fn liveness_proof_is_accepted() {
    let secret = [0x21u8; 32];
    let (address, signature) = match prove_liveness(&secret, b"are you there") {
        Some(proved) => proved,
        None => panic!("the address did not read back"),
    };
    assert_eq!(address, get_onion_address(&keypair_from_secret(&secret).public));
    assert_eq!(signature, sign_nonce(&secret, b"are you there"));
    assert!(verify_signature(&address, b"are you there", &signature));
    assert!(!verify_signature(&address, b"are you here", &signature));
}
