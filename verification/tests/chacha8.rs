use haveno_basic_bootstrap::monero::chacha8::chacha8_monero;

#[test]
fn test_chacha8_monero_basic() {
    let key = [0u8; 32];
    let nonce = [0u8; 8];
    let plaintext = [0u8; 64];
    let ciphertext = chacha8_monero(&key, &nonce, &plaintext);
    assert_eq!(ciphertext.len(), 64);
}

#[test]
fn chacha8_zero_key_keystream_matches_known_vector() {
    // ChaCha8 with an all-zero key and nonce: the first keystream block.
    let key = [0u8; 32];
    let nonce = [0u8; 8];
    let out = chacha8_monero(&key, &nonce, &[0u8; 16]);
    let expected: [u8; 16] = [
        0x3e, 0x00, 0xef, 0x2f, 0x89, 0x5f, 0x40, 0xd6, 0x7f, 0x5b, 0xb8, 0xe8, 0x1f, 0x09, 0xa5,
        0xa1,
    ];
    assert_eq!(out, expected.to_vec());
}

#[test]
fn chacha8_twice_gives_the_input_back() {
    let mut key = [0u8; 32];
    for (i, k) in key.iter_mut().enumerate() {
        *k = i as u8;
    }
    let nonce = [9u8, 8, 7, 6, 5, 4, 3, 2];
    let input: Vec<u8> = (0..200u32).map(|i| (i * 7 + 3) as u8).collect();
    let once = chacha8_monero(&key, &nonce, &input);
    assert_eq!(once.len(), 200);
    assert_ne!(once, input);
    let twice = chacha8_monero(&key, &nonce, &once);
    assert_eq!(twice, input);
}

#[test]
fn chacha8_empty_input_gives_empty_output() {
    let out = chacha8_monero(&[1u8; 32], &[2u8; 8], &[]);
    assert!(out.is_empty());
}

#[test]
fn chacha8_blocks_use_successive_counters() {
    let key = [7u8; 32];
    let nonce = [1u8; 8];
    let long = chacha8_monero(&key, &nonce, &[0u8; 130]);
    let short = chacha8_monero(&key, &nonce, &[0u8; 64]);
    assert_eq!(&long[..64], &short[..]);
    assert_ne!(&long[..64], &long[64..128]);
}
