//! Base-128 variable-length integers: the length prefix of a frame and
//! the keys and lengths inside an envelope body.

use vstd::prelude::*;

verus! {

/// The encoding of `value`: its base-128 digits, least significant first,
/// every byte but the last with its top bit set.
pub open spec fn spec_encode_varint(value: nat) -> Seq<u8>
    decreases value,
{
    if value < 128 {
        seq![value as u8]
    } else {
        seq![(value % 128 + 128) as u8] + spec_encode_varint(value / 128)
    }
}

/// Reads base-128 digits from the front of `bytes`, `depth` digits having
/// been read before. Gives the value of the digits and their number, or
/// `None` if the bytes end first, if ten bytes hold no final digit, or if
/// the tenth digit makes the value exceed 64 bits.
pub open spec fn decode_groups(bytes: Seq<u8>, depth: nat) -> Option<(nat, nat)>
    decreases bytes.len(),
{
    if depth >= 10 || bytes.len() == 0 {
        None
    } else if bytes[0] < 128 {
        if depth == 9 && bytes[0] >= 2 {
            None
        } else {
            Some((bytes[0] as nat, 1nat))
        }
    } else {
        match decode_groups(bytes.skip(1), depth + 1) {
            Some((high, count)) => Some(((bytes[0] - 128) as nat + 128 * high, count + 1)),
            None => None,
        }
    }
}

/// The varint at the front of `bytes`: its value and its length in bytes.
pub open spec fn spec_decode_varint(bytes: Seq<u8>) -> Option<(nat, nat)> {
    decode_groups(bytes, 0)
}

/// The values that fit when `depth` digits came before: 2^(64 - 7 * depth).
pub open spec fn room(depth: nat) -> nat
    decreases 9 - depth,
{
    if depth >= 9 {
        2
    } else {
        128 * room(depth + 1)
    }
}

/// Before any digit, the values that fit are those below 2^64.
pub proof fn lemma_room_at_start()
    ensures
        room(0) == 0x1_0000_0000_0000_0000,
{
    reveal_with_fuel(room, 11);
}

proof fn lemma_room_floor(depth: nat)
    ensures
        room(depth) >= 2,
        depth < 9 ==> room(depth) >= 256,
    decreases 9 - depth,
{
    if depth < 9 {
        lemma_room_floor(depth + 1);
    }
}

/// An encoding has between one and ten bytes when the value fits.
pub proof fn lemma_encode_len(value: nat, depth: nat)
    requires
        depth <= 9,
        value < room(depth),
    ensures
        1 <= spec_encode_varint(value).len() <= 10 - depth,
    decreases value,
{
    if value >= 128 {
        lemma_encode_len(value / 128, depth + 1);
    }
}

/// Decoding reads back what was encoded, whatever follows it.
pub proof fn lemma_decode_encoded(value: nat, rest: Seq<u8>, depth: nat)
    requires
        depth <= 9,
        value < room(depth),
    ensures
        decode_groups(spec_encode_varint(value) + rest, depth) == Some(
            (value, spec_encode_varint(value).len()),
        ),
    decreases value,
{
    let bytes = spec_encode_varint(value) + rest;
    if value >= 128 {
        let tail = spec_encode_varint(value / 128);
        assert(bytes.skip(1) =~= tail + rest);
        lemma_decode_encoded(value / 128, rest, depth + 1);
    }
}

/// What decoding yields is below 2^64 and lies within the bytes given.
pub proof fn lemma_decode_bounds(bytes: Seq<u8>, depth: nat)
    requires
        decode_groups(bytes, depth) is Some,
    ensures
        depth <= 9,
        decode_groups(bytes, depth)->Some_0.0 < room(depth),
        1 <= decode_groups(bytes, depth)->Some_0.1 <= 10 - depth,
        decode_groups(bytes, depth)->Some_0.1 <= bytes.len(),
    decreases bytes.len(),
{
    lemma_room_floor(depth);
    if bytes[0] >= 128 {
        lemma_decode_bounds(bytes.skip(1), depth + 1);
    }
}

/// A varint ends at its first byte below 128: every byte before the last
/// has its top bit set, and the last has not.
pub proof fn lemma_decode_ends_at_first_low_byte(bytes: Seq<u8>, depth: nat)
    requires
        decode_groups(bytes, depth) is Some,
    ensures
        ({
            let count = decode_groups(bytes, depth)->Some_0.1 as int;
            &&& 1 <= count <= bytes.len()
            &&& bytes[count - 1] < 128
            &&& forall|i: int| 0 <= i < count - 1 ==> bytes[i] >= 128
        }),
    decreases bytes.len(),
{
    lemma_decode_bounds(bytes, depth);
    if bytes[0] >= 128 {
        let tail = bytes.skip(1);
        lemma_decode_ends_at_first_low_byte(tail, depth + 1);
        let count = decode_groups(bytes, depth)->Some_0.1 as int;
        assert forall|i: int| 0 <= i < count - 1 implies bytes[i] >= 128 by {
            if i > 0 {
                assert(bytes[i] == tail[i - 1]);
            }
        }
        assert(bytes[count - 1] == tail[count - 2]);
    }
}

/// Bytes whose first byte below 128 comes before the tenth begin a
/// varint.
pub proof fn lemma_short_prefix_has_value(bytes: Seq<u8>, end: int, depth: nat)
    requires
        1 <= end <= bytes.len(),
        bytes[end - 1] < 128,
        forall|i: int| 0 <= i < end - 1 ==> bytes[i] >= 128,
        depth + end <= 9,
    ensures
        decode_groups(bytes, depth) is Some,
    decreases end,
{
    if bytes[0] >= 128 {
        let tail = bytes.skip(1);
        assert forall|i: int| 0 <= i < end - 2 implies tail[i] >= 128 by {
            assert(tail[i] == bytes[i + 1]);
        }
        assert(tail[end - 2] == bytes[end - 1]);
        lemma_short_prefix_has_value(tail, end - 1, depth + 1);
    }
}

/// Decoding looks at the bytes of the varint alone.
pub proof fn lemma_decode_ignores_rest(bytes: Seq<u8>, other: Seq<u8>, depth: nat)
    requires
        decode_groups(bytes, depth) is Some,
    ensures
        decode_groups(
            bytes.take(decode_groups(bytes, depth)->Some_0.1 as int) + other,
            depth,
        ) == decode_groups(bytes, depth),
    decreases bytes.len(),
{
    lemma_decode_bounds(bytes, depth);
    let count = decode_groups(bytes, depth)->Some_0.1;
    let cut = bytes.take(count as int) + other;
    if bytes[0] >= 128 {
        lemma_decode_bounds(bytes.skip(1), depth + 1);
        lemma_decode_ignores_rest(bytes.skip(1), other, depth + 1);
        assert(cut.skip(1) =~= bytes.skip(1).take(count - 1) + other);
    }
}

/// Appends the varint of `value` to `buf` by `prost::encoding::encode_varint`,
/// which writes seven bits per byte from the lowest up and sets the top
/// bit of every byte but the last.
#[verifier::external_body]
pub(crate) fn put_varint(value: u64, buf: &mut Vec<u8>)
    ensures
        final(buf)@ == old(buf)@ + spec_encode_varint(value as nat),
{
    prost::encoding::encode_varint(value, buf);
}

/// Reads one varint from the front of `buf` by
/// `prost::encoding::decode_varint`. The call succeeds exactly where
/// `spec_decode_varint` is defined, gives that value, and leaves the bytes
/// after the varint.
#[verifier::external_body]
pub(crate) fn take_varint<'a>(buf: &'a [u8]) -> (r: (Option<u64>, &'a [u8]))
    ensures
        match spec_decode_varint(buf@) {
            Some((value, count)) => r.0 == Some(value as u64) && r.1@ == buf@.skip(count as int),
            None => r.0 is None,
        },
{
    let mut rest = buf;
    let value = prost::encoding::decode_varint(&mut rest).ok();
    (value, rest)
}

/// Appends the varint of `value` to `out`.
pub fn encode_varint(value: u64, out: &mut Vec<u8>)
    ensures
        final(out)@ == old(out)@ + spec_encode_varint(value as nat),
        final(out)@.len() <= old(out)@.len() + 10,
{
    proof {
        lemma_room_at_start();
        lemma_encode_len(value as nat, 0);
    }
    put_varint(value, out);
}

/// Reads the varint that starts at `pos`: its value and the position after
/// it.
pub fn decode_varint(bytes: &[u8], pos: usize) -> (r: Option<(u64, usize)>)
    requires
        pos <= bytes@.len(),
    ensures
        match spec_decode_varint(bytes@.skip(pos as int)) {
            Some((value, count)) => r is Some && r->Some_0.0 == value && r->Some_0.1 == pos + count
                && pos < pos + count <= bytes@.len(),
            None => r is None,
        },
{
    let tail = vstd::slice::slice_subrange(bytes, pos, bytes.len());
    assert(tail@ =~= bytes@.skip(pos as int));
    let (value, rest) = take_varint(tail);
    proof {
        if spec_decode_varint(tail@) is Some {
            lemma_decode_bounds(tail@, 0);
            lemma_room_at_start();
        }
    }
    match value {
        Some(v) => Some((v, bytes.len() - rest.len())),
        None => None,
    }
}

} // verus!
