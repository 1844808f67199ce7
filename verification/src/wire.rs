//! The record layer of an envelope body: a sequence of numbered fields,
//! each a varint or a length-delimited run of bytes.

use crate::varint::{
    decode_varint, encode_varint, lemma_decode_bounds, lemma_decode_encoded, lemma_room_at_start,
    spec_decode_varint, spec_encode_varint,
};
use vstd::prelude::*;

verus! {

/// The largest field number a key can carry.
pub const MAX_FIELD_NUMBER: u32 = 536870911;

/// What a field holds.
#[derive(Debug, PartialEq, Eq)]
pub enum FieldValue {
    Varint(u64),
    Bytes(Vec<u8>),
}

/// One numbered field of a record.
#[derive(Debug, PartialEq, Eq)]
pub struct Field {
    pub number: u32,
    pub value: FieldValue,
}

/// The mathematical content of a [`FieldValue`].
pub ghost enum WireValue {
    Varint(u64),
    Bytes(Seq<u8>),
}

/// The mathematical content of a [`Field`].
pub ghost struct WireField {
    pub number: u32,
    pub value: WireValue,
}

impl View for FieldValue {
    type V = WireValue;

    open spec fn view(&self) -> WireValue {
        match self {
            FieldValue::Varint(v) => WireValue::Varint(*v),
            FieldValue::Bytes(b) => WireValue::Bytes(b@),
        }
    }
}

impl View for Field {
    type V = WireField;

    open spec fn view(&self) -> WireField {
        WireField { number: self.number, value: self.value@ }
    }
}

impl DeepView for Field {
    type V = WireField;

    open spec fn deep_view(&self) -> WireField {
        self@
    }
}

/// A varint field.
pub open spec fn varint_field(number: u32, value: u64) -> WireField {
    WireField { number, value: WireValue::Varint(value) }
}

/// A length-delimited field.
pub open spec fn bytes_field(number: u32, bytes: Seq<u8>) -> WireField {
    WireField { number, value: WireValue::Bytes(bytes) }
}

/// A field can be written when its number is in range and its bytes have a
/// length that a varint can state.
pub open spec fn field_ok(f: WireField) -> bool {
    &&& 1 <= f.number <= MAX_FIELD_NUMBER
    &&& f.value matches WireValue::Bytes(b) ==> b.len() <= u64::MAX
}

/// Every field of a record can be written.
pub open spec fn fields_ok(fs: Seq<WireField>) -> bool {
    forall|i: int| 0 <= i < fs.len() ==> field_ok(#[trigger] fs[i])
}

/// The key of a field: its number, then three bits that tell a varint (0)
/// from a length-delimited value (2).
pub open spec fn field_key(f: WireField) -> nat {
    (f.number as nat) * 8 + if f.value is Bytes {
        2nat
    } else {
        0nat
    }
}

/// The bytes of one field: key, then the varint, or the length and the
/// bytes.
pub open spec fn encode_field(f: WireField) -> Seq<u8> {
    spec_encode_varint(field_key(f)) + match f.value {
        WireValue::Varint(v) => spec_encode_varint(v as nat),
        WireValue::Bytes(b) => spec_encode_varint(b.len()) + b,
    }
}

/// The bytes of a record: its fields one after another.
#[verifier::opaque]
pub open spec fn encode_fields(fs: Seq<WireField>) -> Seq<u8>
    decreases fs.len(),
{
    if fs.len() == 0 {
        Seq::empty()
    } else {
        encode_field(fs[0]) + encode_fields(fs.skip(1))
    }
}

/// The field at the front of `bytes` and the number of bytes it takes.
pub open spec fn parse_field(bytes: Seq<u8>) -> Option<(WireField, nat)> {
    match spec_decode_varint(bytes) {
        None => None,
        Some((key, n)) => {
            let number = key / 8;
            if number < 1 || number > MAX_FIELD_NUMBER {
                None
            } else if key % 8 == 0 {
                match spec_decode_varint(bytes.skip(n as int)) {
                    None => None,
                    Some((v, m)) => Some((varint_field(number as u32, v as u64), n + m)),
                }
            } else if key % 8 == 2 {
                match spec_decode_varint(bytes.skip(n as int)) {
                    None => None,
                    Some((len, m)) => if n + m + len <= bytes.len() {
                        Some(
                            (
                                bytes_field(
                                    number as u32,
                                    bytes.subrange((n + m) as int, (n + m + len) as int),
                                ),
                                n + m + len,
                            ),
                        )
                    } else {
                        None
                    },
                }
            } else {
                None
            }
        },
    }
}

/// The record that `bytes` hold: fields read one after another until the
/// bytes are used up.
#[verifier::opaque]
pub open spec fn parse_fields(bytes: Seq<u8>) -> Option<Seq<WireField>>
    decreases bytes.len(),
{
    if bytes.len() == 0 {
        Some(Seq::empty())
    } else {
        match parse_field(bytes) {
            None => None,
            Some((f, n)) => if 0 < n <= bytes.len() {
                match parse_fields(bytes.skip(n as int)) {
                    None => None,
                    Some(rest) => Some(seq![f] + rest),
                }
            } else {
                None
            },
        }
    }
}

/// A field that was parsed lies within the bytes and can be written again.
pub proof fn lemma_parse_field_bounds(bytes: Seq<u8>)
    requires
        parse_field(bytes) is Some,
    ensures
        0 < parse_field(bytes)->Some_0.1 <= bytes.len(),
        field_ok(parse_field(bytes)->Some_0.0),
{
    lemma_room_at_start();
    lemma_decode_bounds(bytes, 0);
    let n = spec_decode_varint(bytes)->Some_0.1;
    lemma_decode_bounds(bytes.skip(n as int), 0);
}

/// Parsing reads back a field that was written, whatever follows it.
pub proof fn lemma_parse_encoded_field(f: WireField, rest: Seq<u8>)
    requires
        field_ok(f),
    ensures
        parse_field(encode_field(f) + rest) == Some((f, encode_field(f).len())),
{
    lemma_room_at_start();
    let key = field_key(f);
    let head = spec_encode_varint(key);
    let bytes = encode_field(f) + rest;
    match f.value {
        WireValue::Varint(v) => {
            let body = spec_encode_varint(v as nat);
            assert(bytes =~= head + (body + rest));
            lemma_decode_encoded(key, body + rest, 0);
            assert(bytes.skip(head.len() as int) =~= body + rest);
            lemma_decode_encoded(v as nat, rest, 0);
        },
        WireValue::Bytes(b) => {
            let len = spec_encode_varint(b.len());
            assert(bytes =~= head + (len + b + rest));
            lemma_decode_encoded(key, len + b + rest, 0);
            assert(bytes.skip(head.len() as int) =~= len + (b + rest));
            lemma_decode_encoded(b.len(), b + rest, 0);
            let start = (head.len() + len.len()) as int;
            assert(bytes.subrange(start, start + b.len()) =~= b);
        },
    }
}

/// Parsing reads back a record that was written.
pub proof fn lemma_parse_encoded_fields(fs: Seq<WireField>)
    requires
        fields_ok(fs),
    ensures
        parse_fields(encode_fields(fs)) == Some(fs),
    decreases fs.len(),
{
    reveal(parse_fields);
    reveal(encode_fields);
    if fs.len() > 0 {
        let rest = encode_fields(fs.skip(1));
        lemma_parse_encoded_field(fs[0], rest);
        lemma_parse_field_bounds(encode_field(fs[0]) + rest);
        assert((encode_field(fs[0]) + rest).skip(encode_field(fs[0]).len() as int) =~= rest);
        lemma_parse_encoded_fields(fs.skip(1));
        assert(seq![fs[0]] + fs.skip(1) =~= fs);
    } else {
        assert(fs =~= Seq::empty());
    }
}

/// The empty record has no bytes, and no bytes hold the empty record.
pub proof fn lemma_encode_nothing()
    ensures
        encode_fields(Seq::<WireField>::empty()) == Seq::<u8>::empty(),
        parse_fields(Seq::<u8>::empty()) == Some(Seq::<WireField>::empty()),
{
    reveal(encode_fields);
    reveal(parse_fields);
}

/// What the first field of some bytes and the rest of them hold together.
pub proof fn lemma_parse_fields_step(bytes: Seq<u8>)
    requires
        bytes.len() > 0,
    ensures
        parse_fields(bytes) == match parse_field(bytes) {
            None => None,
            Some((f, n)) => if 0 < n <= bytes.len() {
                match parse_fields(bytes.skip(n as int)) {
                    None => None,
                    Some(rest) => Some(seq![f] + rest),
                }
            } else {
                None
            },
        },
{
    reveal(parse_fields);
}

/// Writing a record with one more field appends that field's bytes.
pub proof fn lemma_encode_fields_push(fs: Seq<WireField>, f: WireField)
    ensures
        encode_fields(fs.push(f)) == encode_fields(fs) + encode_field(f),
    decreases fs.len(),
{
    reveal(encode_fields);
    if fs.len() == 0 {
        assert(fs.push(f).skip(1) =~= Seq::<WireField>::empty());
        assert(encode_fields(fs.push(f).skip(1)) =~= Seq::<u8>::empty());
        assert(encode_fields(fs.push(f)) =~= encode_field(f));
        assert(encode_fields(fs) + encode_field(f) =~= encode_field(f));
    } else {
        assert(fs.push(f).skip(1) =~= fs.skip(1).push(f));
        lemma_encode_fields_push(fs.skip(1), f);
        assert(encode_fields(fs.push(f)) =~= encode_fields(fs) + encode_field(f));
    }
}

/// Appends the bytes of `src` to `out`.
pub fn append_bytes(out: &mut Vec<u8>, src: &[u8])
    ensures
        final(out)@ == old(out)@ + src@,
{
    let mut i: usize = 0;
    while i < src.len()
        invariant
            i <= src@.len(),
            out@ == old(out)@ + src@.take(i as int),
        decreases src@.len() - i,
    {
        out.push(src[i]);
        i += 1;
        assert(out@ =~= old(out)@ + src@.take(i as int));
    }
    assert(src@.take(src@.len() as int) =~= src@);
}

impl Field {
    /// A varint field.
    pub fn varint(number: u32, value: u64) -> (f: Field)
        ensures
            f@ == varint_field(number, value),
    {
        Field { number, value: FieldValue::Varint(value) }
    }

    /// A length-delimited field.
    pub fn bytes(number: u32, bytes: Vec<u8>) -> (f: Field)
        ensures
            f@ == bytes_field(number, bytes@),
    {
        Field { number, value: FieldValue::Bytes(bytes) }
    }
}

/// Appends the bytes of one field to `out`.
pub fn write_field(f: &Field, out: &mut Vec<u8>)
    ensures
        final(out)@ == old(out)@ + encode_field(f@),
{
    let kind: u64 = match &f.value {
        FieldValue::Varint(_) => 0,
        FieldValue::Bytes(_) => 2,
    };
    let number: u64 = f.number as u64;
    encode_varint(number * 8 + kind, out);
    match &f.value {
        FieldValue::Varint(v) => {
            encode_varint(*v, out);
        },
        FieldValue::Bytes(b) => {
            encode_varint(b.len() as u64, out);
            append_bytes(out, b.as_slice());
        },
    }
    assert(out@ =~= old(out)@ + encode_field(f@));
}

/// The bytes of a record.
pub fn write_fields(fields: &Vec<Field>) -> (out: Vec<u8>)
    ensures
        out@ == encode_fields(fields.deep_view()),
{
    let mut out: Vec<u8> = Vec::new();
    let mut i: usize = 0;
    proof {
        lemma_encode_nothing();
        assert(fields.deep_view().take(0) =~= Seq::<WireField>::empty());
    }
    while i < fields.len()
        invariant
            i <= fields@.len(),
            out@ == encode_fields(fields.deep_view().take(i as int)),
        decreases fields@.len() - i,
    {
        proof {
            lemma_encode_fields_push(fields.deep_view().take(i as int), fields[i as int]@);
            assert(fields.deep_view().take(i as int).push(fields[i as int]@)
                =~= fields.deep_view().take(i + 1));
        }
        write_field(&fields[i], &mut out);
        i += 1;
    }
    assert(fields.deep_view().take(i as int) =~= fields.deep_view());
    out
}

/// Reads the field that starts at `pos`: the field and the position after
/// it.
pub fn read_field(bytes: &[u8], pos: usize) -> (r: Option<(Field, usize)>)
    requires
        pos <= bytes@.len(),
    ensures
        match parse_field(bytes@.skip(pos as int)) {
            Some((f, n)) => r is Some && r->Some_0.0@ == f && r->Some_0.1 == pos + n && pos < pos
                + n <= bytes@.len(),
            None => r is None,
        },
{
    let ghost tail = bytes@.skip(pos as int);
    proof {
        if parse_field(tail) is Some {
            lemma_parse_field_bounds(tail);
        }
    }
    let (key, after_key) = match decode_varint(bytes, pos) {
        Some(pair) => pair,
        None => { return None; },
    };
    let number: u64 = key / 8;
    if number < 1 || number > MAX_FIELD_NUMBER as u64 {
        return None;
    }
    let kind: u64 = key % 8;
    if kind != 0 && kind != 2 {
        return None;
    }
    assert(bytes@.skip(after_key as int) =~= tail.skip(after_key - pos));
    let (word, after_word) = match decode_varint(bytes, after_key) {
        Some(pair) => pair,
        None => { return None; },
    };
    if kind == 0 {
        return Some((Field::varint(number as u32, word), after_word));
    }
    if word > (bytes.len() - after_word) as u64 {
        return None;
    }
    let end: usize = after_word + word as usize;
    let body = vstd::slice::slice_to_vec(vstd::slice::slice_subrange(bytes, after_word, end));
    assert(body@ =~= tail.subrange(after_word - pos, end - pos));
    Some((Field::bytes(number as u32, body), end))
}

/// Reads a whole record.
pub fn read_fields(bytes: &[u8]) -> (r: Option<Vec<Field>>)
    ensures
        match parse_fields(bytes@) {
            Some(fs) => r is Some && r->Some_0.deep_view() == fs,
            None => r is None,
        },
{
    let mut fields: Vec<Field> = Vec::new();
    let mut pos: usize = 0;
    assert(bytes@.skip(0) =~= bytes@);
    assert(fields.deep_view() =~= Seq::<WireField>::empty());
    while pos < bytes.len()
        invariant
            pos <= bytes@.len(),
            parse_fields(bytes@) == match parse_fields(bytes@.skip(pos as int)) {
                Some(rest) => Some(fields.deep_view() + rest),
                None => None,
            },
        decreases bytes@.len() - pos,
    {
        let ghost before = fields.deep_view();
        let ghost tail = bytes@.skip(pos as int);
        proof {
            lemma_parse_fields_step(tail);
        }
        match read_field(bytes, pos) {
            None => {
                return None;
            },
            Some((f, next)) => {
                proof {
                    assert(tail.skip(next - pos) =~= bytes@.skip(next as int));
                }
                let ghost fv = f@;
                fields.push(f);
                pos = next;
                proof {
                    assert(fields.deep_view() =~= before.push(fv));
                    match parse_fields(bytes@.skip(pos as int)) {
                        Some(rest) => {
                            assert(before + (seq![fv] + rest) =~= fields.deep_view() + rest);
                        },
                        None => {},
                    }
                }
            },
        }
    }
    proof {
        lemma_encode_nothing();
    }
    assert(bytes@.skip(pos as int) =~= Seq::<u8>::empty());
    assert(fields.deep_view() + Seq::<WireField>::empty() =~= fields.deep_view());
    Some(fields)
}

} // verus!
