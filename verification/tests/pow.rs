use haveno_basic_bootstrap::crypto::randomx_pow::{
    after_hash, meets_difficulty, pow_input, PowStep,
};

#[test]
fn pow_input_is_seed_then_nonce_lowest_byte_first() {
    assert_eq!(pow_input(b"ab", 0), vec![b'a', b'b', 0, 0, 0, 0, 0, 0, 0, 0]);
    assert_eq!(
        pow_input(&[], 0x0102030405060708),
        vec![0x08, 0x07, 0x06, 0x05, 0x04, 0x03, 0x02, 0x01]
    );
    assert_eq!(pow_input(&[9], u64::MAX), vec![9, 255, 255, 255, 255, 255, 255, 255, 255]);
}

#[test]
fn five_leading_zero_bytes_meet_the_difficulty() {
    assert!(meets_difficulty(&[0, 0, 0, 0, 0, 7, 7]));
    assert!(meets_difficulty(&[0, 0, 0, 0, 0]));
    assert!(!meets_difficulty(&[0, 0, 0, 0, 1, 0]));
    assert!(!meets_difficulty(&[1, 0, 0, 0, 0, 0]));
    assert!(meets_difficulty(&[0, 0]));
    assert!(meets_difficulty(&[]));
    assert!(!meets_difficulty(&[0, 2]));
}

#[test]
fn search_goes_on_until_a_hash_is_good_enough() {
    assert_eq!(after_hash(vec![1; 32], 5), PowStep::Try(6));
    assert_eq!(
        after_hash(vec![0; 32], 5),
        PowStep::Solved { hash: vec![0; 32], nonce: 5 }
    );
    assert_eq!(after_hash(vec![1; 32], u64::MAX), PowStep::Exhausted);
    assert_eq!(
        after_hash(vec![0; 32], u64::MAX),
        PowStep::Solved { hash: vec![0; 32], nonce: u64::MAX }
    );
}
