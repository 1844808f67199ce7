//! ChaCha8 in Monero's layout: 256-bit key, 64-bit nonce, 64-bit block
//! counter starting at zero, eight rounds.

use vstd::prelude::*;

verus! {

/// The four constant words that open every block state.
pub open spec fn sigma(i: int) -> u32 {
    if i == 0 {
        0x61707865u32
    } else if i == 1 {
        0x3320646eu32
    } else if i == 2 {
        0x79622d32u32
    } else {
        0x6b206574u32
    }
}

/// Rotation of a 32-bit word to the left by `b` bits, `b` taken modulo 32.
pub open spec fn spec_rotl(a: u32, b: u32) -> u32 {
    let s = b % 32;
    if s == 0 {
        a
    } else {
        (a << s) | (a >> ((32 - s) as u32))
    }
}

/// Sum of two words modulo 2^32.
pub open spec fn wadd(x: u32, y: u32) -> u32 {
    ((x as int + y as int) % 0x1_0000_0000) as u32
}

/// One add-xor-rotate step: `s[x] += s[y]; s[z] ^= s[x]; s[z] <<<= r`.
pub open spec fn mix_step(s: Seq<u32>, x: int, y: int, z: int, r: u32) -> Seq<u32> {
    let s1 = s.update(x, wadd(s[x], s[y]));
    s1.update(z, spec_rotl(s1[z] ^ s1[x], r))
}

/// The ChaCha quarter round on the words at positions `a`, `b`, `c`, `d`.
pub open spec fn spec_quarter_round(s: Seq<u32>, a: int, b: int, c: int, d: int) -> Seq<u32> {
    let s1 = mix_step(s, a, b, d, 16);
    let s2 = mix_step(s1, c, d, b, 12);
    let s3 = mix_step(s2, a, b, d, 8);
    mix_step(s3, c, d, b, 7)
}

/// A column round followed by a diagonal round.
pub open spec fn spec_double_round(s: Seq<u32>) -> Seq<u32> {
    let c0 = spec_quarter_round(s, 0, 4, 8, 12);
    let c1 = spec_quarter_round(c0, 1, 5, 9, 13);
    let c2 = spec_quarter_round(c1, 2, 6, 10, 14);
    let c3 = spec_quarter_round(c2, 3, 7, 11, 15);
    let d0 = spec_quarter_round(c3, 0, 5, 10, 15);
    let d1 = spec_quarter_round(d0, 1, 6, 11, 12);
    let d2 = spec_quarter_round(d1, 2, 7, 8, 13);
    spec_quarter_round(d2, 3, 4, 9, 14)
}

/// `n` double rounds applied in turn.
pub open spec fn spec_rounds(s: Seq<u32>, n: nat) -> Seq<u32>
    decreases n,
{
    if n == 0 {
        s
    } else {
        spec_double_round(spec_rounds(s, (n - 1) as nat))
    }
}

/// The little-endian word made of four bytes starting at `at`.
pub open spec fn le_word(bytes: Seq<u8>, at: int) -> u32 {
    (bytes[at] as u32) | ((bytes[at + 1] as u32) << 8) | ((bytes[at + 2] as u32) << 16) | ((
    bytes[at + 3] as u32) << 24)
}

/// Byte `k` (0 is the lowest) of a word.
pub open spec fn word_byte(w: u32, k: int) -> u8 {
    ((w >> ((8 * k) as u32)) & 0xff) as u8
}

/// The state a block starts from: constants, key, counter, nonce.
pub open spec fn initial_state(key: Seq<u8>, nonce: Seq<u8>, counter: u64) -> Seq<u32> {
    Seq::new(
        16,
        |i: int|
            if i < 4 {
                sigma(i)
            } else if i < 12 {
                le_word(key, 4 * (i - 4))
            } else if i == 12 {
                (counter & 0xffff_ffff) as u32
            } else if i == 13 {
                (counter >> 32) as u32
            } else {
                le_word(nonce, 4 * (i - 14))
            },
    )
}

/// The 64 keystream bytes of block number `counter`.
pub open spec fn keystream_block(key: Seq<u8>, nonce: Seq<u8>, counter: u64) -> Seq<u8> {
    let start = initial_state(key, nonce, counter);
    let mixed = spec_rounds(start, 4);
    Seq::new(64, |i: int| word_byte(wadd(mixed[i / 4], start[i / 4]), i % 4))
}

/// The cipher itself: every input byte XORed with the keystream byte at
/// its position.
pub open spec fn spec_chacha8(key: Seq<u8>, nonce: Seq<u8>, input: Seq<u8>) -> Seq<u8> {
    Seq::new(
        input.len(),
        |i: int| input[i] ^ keystream_block(key, nonce, (i / 64) as u64)[i % 64],
    )
}

/// Rotates a word to the left by `b` bits, `b` taken modulo 32.
pub fn rotl(a: u32, b: u32) -> (r: u32)
    ensures
        r == spec_rotl(a, b),
{
    let s: u32 = b % 32;
    if s == 0 {
        a
    } else {
        (a << s) | (a >> (32 - s))
    }
}

fn mix(state: &mut [u32; 16], x: usize, y: usize, z: usize, r: u32)
    requires
        x < 16,
        y < 16,
        z < 16,
    ensures
        final(state)@ == mix_step(old(state)@, x as int, y as int, z as int, r),
{
    let sum: u32 = state[x].wrapping_add(state[y]);
    state[x] = sum;
    let turned: u32 = rotl(state[z] ^ state[x], r);
    state[z] = turned;
}

/// Applies the quarter round to the words at `a`, `b`, `c`, `d`.
pub fn quarter_round(state: &mut [u32; 16], a: usize, b: usize, c: usize, d: usize)
    requires
        a < 16,
        b < 16,
        c < 16,
        d < 16,
    ensures
        final(state)@ == spec_quarter_round(old(state)@, a as int, b as int, c as int, d as int),
{
    mix(state, a, b, d, 16);
    mix(state, c, d, b, 12);
    mix(state, a, b, d, 8);
    mix(state, c, d, b, 7);
}

fn load_le(bytes: &[u8], at: usize) -> (w: u32)
    requires
        at + 4 <= bytes@.len(),
    ensures
        w == le_word(bytes@, at as int),
{
    (bytes[at] as u32) | ((bytes[at + 1] as u32) << 8) | ((bytes[at + 2] as u32) << 16) | ((
    bytes[at + 3] as u32) << 24)
}

fn byte_of(w: u32, k: u32) -> (b: u8)
    requires
        k < 4,
    ensures
        b == word_byte(w, k as int),
{
    let shifted: u32 = (w >> (8 * k)) & 0xff;
    assert(shifted < 256) by (bit_vector)
        requires
            shifted == (w >> (8 * k)) & 0xff,
    ;
    shifted as u8
}

fn start_state(key: &[u8; 32], nonce: &[u8; 8], counter: u64) -> (state: [u32; 16])
    ensures
        state@ == initial_state(key@, nonce@, counter),
{
    let mut state = [0u32;16];
    state[0] = 0x61707865u32;
    state[1] = 0x3320646eu32;
    state[2] = 0x79622d32u32;
    state[3] = 0x6b206574u32;
    let mut i: usize = 0;
    while i < 8
        invariant
            i <= 8,
            forall|j: int| 0 <= j < 4 ==> state@[j] == sigma(j),
            forall|j: int| 4 <= j < 4 + i ==> state@[j] == le_word(key@, 4 * (j - 4)),
        decreases 8 - i,
    {
        let w: u32 = load_le(key.as_slice(), 4 * i);
        state[4 + i] = w;
        i += 1;
    }
    let low: u64 = counter & 0xffff_ffff;
    let high: u64 = counter >> 32;
    assert(low <= 0xffff_ffff && high <= 0xffff_ffff) by (bit_vector)
        requires
            low == counter & 0xffff_ffff,
            high == counter >> 32,
    ;
    state[12] = low as u32;
    state[13] = high as u32;
    let n0: u32 = load_le(nonce.as_slice(), 0);
    let n1: u32 = load_le(nonce.as_slice(), 4);
    state[14] = n0;
    state[15] = n1;
    assert(state@ =~= initial_state(key@, nonce@, counter));
    state
}

fn double_round(state: &mut [u32; 16])
    ensures
        final(state)@ == spec_double_round(old(state)@),
{
    quarter_round(state, 0, 4, 8, 12);
    quarter_round(state, 1, 5, 9, 13);
    quarter_round(state, 2, 6, 10, 14);
    quarter_round(state, 3, 7, 11, 15);
    quarter_round(state, 0, 5, 10, 15);
    quarter_round(state, 1, 6, 11, 12);
    quarter_round(state, 2, 7, 8, 13);
    quarter_round(state, 3, 4, 9, 14);
}

fn block_bytes(key: &[u8; 32], nonce: &[u8; 8], counter: u64) -> (block: [u8; 64])
    ensures
        block@ == keystream_block(key@, nonce@, counter),
{
    let initial = start_state(key, nonce, counter);
    let mut state = initial;
    let mut round: usize = 0;
    while round < 4
        invariant
            round <= 4,
            state@ == spec_rounds(initial@, round as nat),
        decreases 4 - round,
    {
        double_round(&mut state);
        round += 1;
    }
    let ghost mixed = state@;
    let mut block = [0u8;64];
    let mut i: usize = 0;
    while i < 16
        invariant
            i <= 16,
            state@ == mixed,
            forall|j: int|
                0 <= j < 4 * i ==> block@[j] == word_byte(
                    wadd(mixed[j / 4], initial@[j / 4]),
                    j % 4,
                ),
        decreases 16 - i,
    {
        let word: u32 = state[i].wrapping_add(initial[i]);
        let b0: u8 = byte_of(word, 0);
        let b1: u8 = byte_of(word, 1);
        let b2: u8 = byte_of(word, 2);
        let b3: u8 = byte_of(word, 3);
        block[4 * i] = b0;
        block[4 * i + 1] = b1;
        block[4 * i + 2] = b2;
        block[4 * i + 3] = b3;
        i += 1;
    }
    assert(block@ =~= keystream_block(key@, nonce@, counter));
    block
}

/// Encrypts or decrypts `input` under `key` and `nonce`.
pub fn chacha8_monero(key: &[u8; 32], nonce: &[u8; 8], input: &[u8]) -> (output: Vec<u8>)
    ensures
        output@ == spec_chacha8(key@, nonce@, input@),
{
    let mut output: Vec<u8> = Vec::new();
    let mut counter: u64 = 0;
    let mut done: usize = 0;
    while done < input.len()
        invariant
            done <= input@.len(),
            done % 64 == 0 || done == input@.len(),
            done < input@.len() ==> counter as int == done as int / 64,
            output@.len() == done,
            forall|j: int| 0 <= j < done ==> output@[j] == spec_chacha8(key@, nonce@, input@)[j],
        decreases input@.len() - done,
    {
        let block = block_bytes(key, nonce, counter);
        let chunk_len: usize = if input.len() - done < 64 {
            input.len() - done
        } else {
            64
        };
        let mut i: usize = 0;
        while i < chunk_len
            invariant
                i <= chunk_len <= 64,
                done % 64 == 0,
                done + chunk_len <= input@.len(),
                counter as int == done as int / 64,
                block@ == keystream_block(key@, nonce@, counter),
                output@.len() == done + i,
                forall|j: int|
                    0 <= j < done + i ==> output@[j] == spec_chacha8(key@, nonce@, input@)[j],
            decreases chunk_len - i,
        {
            assert((done + i) / 64 == done as int / 64 && (done + i) % 64 == i as int) by {
                assert(done as int == 64 * (done as int / 64));
            }
            output.push(input[done + i] ^ block[i]);
            i += 1;
        }
        done += chunk_len;
        if done < input.len() {
            counter += 1;
        }
    }
    assert(output@ =~= spec_chacha8(key@, nonce@, input@));
    output
}

/// Applying the cipher twice under the same key and nonce gives the input
/// back: encryption and decryption are the same operation.
pub proof fn chacha8_is_an_involution(key: Seq<u8>, nonce: Seq<u8>, input: Seq<u8>)
    ensures
        spec_chacha8(key, nonce, spec_chacha8(key, nonce, input)) == input,
{
    let once = spec_chacha8(key, nonce, input);
    let twice = spec_chacha8(key, nonce, once);
    assert forall|i: int| 0 <= i < input.len() implies twice[i] == input[i] by {
        let k = keystream_block(key, nonce, (i / 64) as u64)[i % 64];
        let a = input[i];
        assert((a ^ k) ^ k == a) by (bit_vector);
    }
    assert(twice =~= input);
}

} // verus!
