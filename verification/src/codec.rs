//! Typed fields on top of the record layer: integers, flags, text, nested
//! byte strings and lists of them.

use crate::varint::encode_varint;
use crate::wire::{
    append_bytes, bytes_field, encode_field, encode_fields, fields_ok, lemma_encode_fields_push,
    lemma_encode_nothing, lemma_parse_encoded_fields, parse_fields, read_fields, varint_field,
    Field, FieldValue, WireField,
};
use vstd::prelude::*;
use vstd::utf8::{decode_utf8, encode_utf8, valid_utf8};

verus! {

/// A signed 64-bit number as the unsigned word with the same bits.
pub open spec fn i64_to_wire(v: i64) -> u64 {
    if v >= 0 {
        v as u64
    } else {
        (v + 0x1_0000_0000_0000_0000) as u64
    }
}

/// The signed number with the bits of `w`.
pub open spec fn wire_to_i64(w: u64) -> i64 {
    if w <= i64::MAX {
        w as i64
    } else {
        (w - 0x1_0000_0000_0000_0000) as i64
    }
}

/// A field that holds a signed 64-bit number.
pub open spec fn i64_field(number: u32, v: i64) -> WireField {
    varint_field(number, i64_to_wire(v))
}

/// The signed 64-bit number that a field with this number holds.
pub open spec fn field_i64(f: WireField, number: u32) -> Option<i64> {
    if f.number == number && f.value is Varint {
        Some(wire_to_i64(f.value->Varint_0))
    } else {
        None
    }
}

/// A field that holds a signed 32-bit number: its 64-bit form is written.
pub open spec fn i32_field(number: u32, v: i32) -> WireField {
    varint_field(number, i64_to_wire(v as i64))
}

/// The signed 32-bit number that a field with this number holds, if the
/// number written fits 32 bits.
pub open spec fn field_i32(f: WireField, number: u32) -> Option<i32> {
    if f.number == number && f.value is Varint && i32::MIN <= wire_to_i64(f.value->Varint_0)
        <= i32::MAX {
        Some(wire_to_i64(f.value->Varint_0) as i32)
    } else {
        None
    }
}

/// A field that holds an unsigned 32-bit number.
pub open spec fn u32_field(number: u32, v: u32) -> WireField {
    varint_field(number, v as u64)
}

/// The unsigned 32-bit number that a field with this number holds.
pub open spec fn field_u32(f: WireField, number: u32) -> Option<u32> {
    if f.number == number && f.value is Varint && f.value->Varint_0 <= u32::MAX {
        Some(f.value->Varint_0 as u32)
    } else {
        None
    }
}

/// A field that holds a flag: 1 for true, 0 for false.
pub open spec fn bool_field(number: u32, v: bool) -> WireField {
    varint_field(
        number,
        if v {
            1
        } else {
            0
        },
    )
}

/// The flag that a field with this number holds; only 0 and 1 are flags.
pub open spec fn field_bool(f: WireField, number: u32) -> Option<bool> {
    if f.number == number && f.value is Varint && f.value->Varint_0 <= 1 {
        Some(f.value->Varint_0 == 1)
    } else {
        None
    }
}

/// The bytes that a length-delimited field with this number holds.
pub open spec fn field_bytes(f: WireField, number: u32) -> Option<Seq<u8>> {
    if f.number == number && f.value is Bytes {
        Some(f.value->Bytes_0)
    } else {
        None
    }
}

/// Text travels as its UTF-8 bytes.
pub open spec fn text_field(number: u32, text: Seq<char>) -> WireField {
    bytes_field(number, encode_utf8(text))
}

/// The text that a field with this number holds, if its bytes are UTF-8.
pub open spec fn field_text(f: WireField, number: u32) -> Option<Seq<char>> {
    if f.number == number && f.value is Bytes && valid_utf8(f.value->Bytes_0) {
        Some(decode_utf8(f.value->Bytes_0))
    } else {
        None
    }
}

/// Reading a text field gives the text back.
pub proof fn lemma_text_field(number: u32, text: Seq<char>)
    ensures
        field_text(text_field(number, text), number) == Some(text),
{
    vstd::utf8::encode_utf8_valid_utf8(text);
    vstd::utf8::encode_utf8_decode_utf8(text);
}

/// A list of byte strings is a record of its own: one field per item,
/// each numbered 1.
pub open spec fn list_record(items: Seq<Seq<u8>>) -> Seq<WireField> {
    Seq::new(items.len(), |i: int| bytes_field(1, items[i]))
}

/// The bytes of a list of byte strings.
pub open spec fn encode_list(items: Seq<Seq<u8>>) -> Seq<u8> {
    encode_fields(list_record(items))
}

/// Every field is a byte string numbered 1.
pub open spec fn record_is_list(fs: Seq<WireField>) -> bool {
    forall|i: int| 0 <= i < fs.len() ==> field_bytes(#[trigger] fs[i], 1) is Some
}

/// The byte strings of the fields, in order.
pub open spec fn record_items(fs: Seq<WireField>) -> Seq<Seq<u8>> {
    Seq::new(fs.len(), |i: int| fs[i].value->Bytes_0)
}

/// The list of byte strings that `bytes` hold, if they hold one.
pub open spec fn parse_list(bytes: Seq<u8>) -> Option<Seq<Seq<u8>>> {
    match parse_fields(bytes) {
        Some(fs) => if record_is_list(fs) {
            Some(record_items(fs))
        } else {
            None
        },
        None => None,
    }
}

/// Every item is short enough for its length to be written.
pub open spec fn items_ok(items: Seq<Seq<u8>>) -> bool {
    forall|i: int| 0 <= i < items.len() ==> (#[trigger] items[i]).len() <= u64::MAX
}

/// Parsing the bytes of a list gives the list back.
pub proof fn lemma_parse_encoded_list(items: Seq<Seq<u8>>)
    requires
        items_ok(items),
    ensures
        parse_list(encode_list(items)) == Some(items),
{
    let fs = list_record(items);
    assert(fields_ok(fs));
    lemma_parse_encoded_fields(fs);
    assert(record_items(fs) =~= items);
}

/// A list of 32-bit numbers is a record of varint fields numbered 1.
pub open spec fn int_list_record(items: Seq<i32>) -> Seq<WireField> {
    Seq::new(items.len(), |i: int| i32_field(1, items[i]))
}

/// The bytes of a list of 32-bit numbers.
pub open spec fn encode_int_list(items: Seq<i32>) -> Seq<u8> {
    encode_fields(int_list_record(items))
}

/// Every field is a 32-bit number numbered 1.
pub open spec fn record_is_int_list(fs: Seq<WireField>) -> bool {
    forall|i: int| 0 <= i < fs.len() ==> field_i32(#[trigger] fs[i], 1) is Some
}

/// The numbers of the fields, in order.
pub open spec fn record_ints(fs: Seq<WireField>) -> Seq<i32> {
    Seq::new(fs.len(), |i: int| field_i32(fs[i], 1)->Some_0)
}

/// The list of 32-bit numbers that `bytes` hold, if they hold one.
pub open spec fn parse_int_list(bytes: Seq<u8>) -> Option<Seq<i32>> {
    match parse_fields(bytes) {
        Some(fs) => if record_is_int_list(fs) {
            Some(record_ints(fs))
        } else {
            None
        },
        None => None,
    }
}

/// Parsing the bytes of a list of numbers gives the list back.
pub proof fn lemma_parse_encoded_int_list(items: Seq<i32>)
    ensures
        parse_int_list(encode_int_list(items)) == Some(items),
{
    let fs = int_list_record(items);
    assert(fields_ok(fs));
    lemma_parse_encoded_fields(fs);
    assert(record_ints(fs) =~= items);
}

/// A list of texts is the list of their UTF-8 encodings.
pub open spec fn text_items(texts: Seq<Seq<char>>) -> Seq<Seq<u8>> {
    Seq::new(texts.len(), |i: int| encode_utf8(texts[i]))
}

/// The bytes of a list of texts.
pub open spec fn encode_text_list(texts: Seq<Seq<char>>) -> Seq<u8> {
    encode_list(text_items(texts))
}

/// Every byte string is UTF-8.
pub open spec fn items_are_text(items: Seq<Seq<u8>>) -> bool {
    forall|i: int| 0 <= i < items.len() ==> valid_utf8(#[trigger] items[i])
}

/// The texts that the byte strings encode, in order.
pub open spec fn items_text(items: Seq<Seq<u8>>) -> Seq<Seq<char>> {
    Seq::new(items.len(), |i: int| decode_utf8(items[i]))
}

/// The list of texts that `bytes` hold, if they hold one.
pub open spec fn parse_text_list(bytes: Seq<u8>) -> Option<Seq<Seq<char>>> {
    match parse_list(bytes) {
        Some(items) => if items_are_text(items) {
            Some(items_text(items))
        } else {
            None
        },
        None => None,
    }
}

/// Every text has an encoding short enough for its length to be written.
pub open spec fn texts_ok(texts: Seq<Seq<char>>) -> bool {
    forall|i: int| 0 <= i < texts.len() ==> encode_utf8(#[trigger] texts[i]).len() <= u64::MAX
}

/// Parsing the bytes of a list of texts gives the list back.
pub proof fn lemma_parse_encoded_text_list(texts: Seq<Seq<char>>)
    requires
        texts_ok(texts),
    ensures
        parse_text_list(encode_text_list(texts)) == Some(texts),
{
    let items = text_items(texts);
    assert(items_ok(items));
    lemma_parse_encoded_list(items);
    assert forall|i: int| 0 <= i < items.len() implies valid_utf8(#[trigger] items[i])
        && decode_utf8(items[i]) == texts[i] by {
        vstd::utf8::encode_utf8_valid_utf8(texts[i]);
        vstd::utf8::encode_utf8_decode_utf8(texts[i]);
    }
    assert(items_text(items) =~= texts);
}

/// The byte strings that a vector of byte vectors holds.
pub open spec fn bytes_list_view(v: Seq<Vec<u8>>) -> Seq<Seq<u8>> {
    Seq::new(v.len(), |i: int| v[i]@)
}

/// The texts that a vector of strings holds.
pub open spec fn text_list_view(v: Seq<String>) -> Seq<Seq<char>> {
    Seq::new(v.len(), |i: int| v[i]@)
}

/// Writes a record field by field. The bytes written so far are always the
/// encoding of the fields put so far.
pub struct RecordWriter {
    out: Vec<u8>,
    fields: Ghost<Seq<WireField>>,
}

impl RecordWriter {
    /// The bytes written are the encoding of the fields put.
    pub closed spec fn wf(&self) -> bool {
        self.out@ == encode_fields(self.fields@)
    }

    /// The fields put so far.
    pub closed spec fn fields(&self) -> Seq<WireField> {
        self.fields@
    }

    /// A writer that has written nothing.
    pub fn new() -> (w: RecordWriter)
        ensures
            w.wf(),
            w.fields() == Seq::<WireField>::empty(),
    {
        proof {
            lemma_encode_nothing();
        }
        RecordWriter { out: Vec::new(), fields: Ghost(Seq::empty()) }
    }

    /// Appends a varint field.
    pub fn put_varint(&mut self, number: u32, value: u64)
        requires
            old(self).wf(),
        ensures
            final(self).wf(),
            final(self).fields() == old(self).fields().push(varint_field(number, value)),
    {
        proof {
            lemma_encode_fields_push(self.fields@, varint_field(number, value));
        }
        let key: u64 = number as u64 * 8;
        encode_varint(key, &mut self.out);
        encode_varint(value, &mut self.out);
        self.fields = Ghost(self.fields@.push(varint_field(number, value)));
        assert(self.out@ =~= old(self).out@ + encode_field(varint_field(number, value)));
    }

    /// Appends a length-delimited field.
    pub fn put_bytes(&mut self, number: u32, bytes: &[u8])
        requires
            old(self).wf(),
        ensures
            final(self).wf(),
            final(self).fields() == old(self).fields().push(bytes_field(number, bytes@)),
            bytes@.len() <= usize::MAX,
    {
        proof {
            lemma_encode_fields_push(self.fields@, bytes_field(number, bytes@));
        }
        let key: u64 = number as u64 * 8 + 2;
        encode_varint(key, &mut self.out);
        encode_varint(bytes.len() as u64, &mut self.out);
        append_bytes(&mut self.out, bytes);
        self.fields = Ghost(self.fields@.push(bytes_field(number, bytes@)));
        assert(self.out@ =~= old(self).out@ + encode_field(bytes_field(number, bytes@)));
    }

    /// Appends a signed 64-bit number.
    pub fn put_i64(&mut self, number: u32, value: i64)
        requires
            old(self).wf(),
        ensures
            final(self).wf(),
            final(self).fields() == old(self).fields().push(i64_field(number, value)),
    {
        self.put_varint(number, i64_as_word(value));
    }

    /// Appends a signed 32-bit number.
    pub fn put_i32(&mut self, number: u32, value: i32)
        requires
            old(self).wf(),
        ensures
            final(self).wf(),
            final(self).fields() == old(self).fields().push(i32_field(number, value)),
    {
        self.put_varint(number, i64_as_word(value as i64));
    }

    /// Appends an unsigned 32-bit number.
    pub fn put_u32(&mut self, number: u32, value: u32)
        requires
            old(self).wf(),
        ensures
            final(self).wf(),
            final(self).fields() == old(self).fields().push(u32_field(number, value)),
    {
        self.put_varint(number, value as u64);
    }

    /// Appends a flag.
    pub fn put_bool(&mut self, number: u32, value: bool)
        requires
            old(self).wf(),
        ensures
            final(self).wf(),
            final(self).fields() == old(self).fields().push(bool_field(number, value)),
    {
        let word: u64 = if value {
            1
        } else {
            0
        };
        self.put_varint(number, word);
    }

    /// Appends a text.
    pub fn put_text(&mut self, number: u32, text: &str)
        requires
            old(self).wf(),
        ensures
            final(self).wf(),
            final(self).fields() == old(self).fields().push(text_field(number, text@)),
            encode_utf8(text@).len() <= usize::MAX,
    {
        self.put_bytes(number, text.as_bytes());
    }

    /// The bytes of the record.
    pub fn finish(self) -> (out: Vec<u8>)
        requires
            self.wf(),
        ensures
            out@ == encode_fields(self.fields()),
    {
        self.out
    }
}

/// The unsigned word with the bits of `v`.
pub fn i64_as_word(v: i64) -> (w: u64)
    ensures
        w == i64_to_wire(v),
{
    if v >= 0 {
        v as u64
    } else {
        u64::MAX - ((-(v + 1)) as u64)
    }
}

/// The signed number with the bits of `w`.
pub fn word_as_i64(w: u64) -> (v: i64)
    ensures
        v == wire_to_i64(w),
{
    if w <= i64::MAX as u64 {
        w as i64
    } else {
        -((u64::MAX - w) as i64) - 1
    }
}

/// The signed 64-bit number of a field, if the field has this number and
/// holds a varint.
pub fn get_i64(f: &Field, number: u32) -> (r: Option<i64>)
    ensures
        r == field_i64(f@, number),
{
    match &f.value {
        FieldValue::Varint(w) => if f.number == number {
            Some(word_as_i64(*w))
        } else {
            None
        },
        FieldValue::Bytes(_) => None,
    }
}

/// The signed 32-bit number of a field, if the field has this number and
/// holds a varint that fits.
pub fn get_i32(f: &Field, number: u32) -> (r: Option<i32>)
    ensures
        r == field_i32(f@, number),
{
    match get_i64(f, number) {
        Some(v) => if -0x8000_0000 <= v && v <= 0x7fff_ffff {
            Some(v as i32)
        } else {
            None
        },
        None => None,
    }
}

/// The unsigned 32-bit number of a field, if the field has this number and
/// holds a varint that fits.
pub fn get_u32(f: &Field, number: u32) -> (r: Option<u32>)
    ensures
        r == field_u32(f@, number),
{
    match &f.value {
        FieldValue::Varint(w) => if f.number == number && *w <= 0xffff_ffff {
            Some(*w as u32)
        } else {
            None
        },
        FieldValue::Bytes(_) => None,
    }
}

/// The flag of a field, if the field has this number and holds 0 or 1.
pub fn get_bool(f: &Field, number: u32) -> (r: Option<bool>)
    ensures
        r == field_bool(f@, number),
{
    match &f.value {
        FieldValue::Varint(w) => if f.number == number && *w <= 1 {
            Some(*w == 1)
        } else {
            None
        },
        FieldValue::Bytes(_) => None,
    }
}

/// The bytes of a field, if the field has this number and is
/// length-delimited.
pub fn get_bytes(f: &Field, number: u32) -> (r: Option<&Vec<u8>>)
    ensures
        match field_bytes(f@, number) {
            Some(b) => r is Some && r->Some_0@ == b,
            None => r is None,
        },
{
    match &f.value {
        FieldValue::Bytes(b) => if f.number == number {
            Some(b)
        } else {
            None
        },
        FieldValue::Varint(_) => None,
    }
}

/// `String::from_utf8` of std: it accepts exactly the byte strings that
/// are valid UTF-8, and the string it gives has those bytes.
#[verifier::external_body]
fn string_from_utf8(bytes: Vec<u8>) -> (r: Option<String>)
    ensures
        r is Some <==> valid_utf8(bytes@),
        r is Some ==> encode_utf8(r->Some_0@) == bytes@,
{
    String::from_utf8(bytes).ok()
}

/// The text that `bytes` encode, if they are UTF-8.
pub fn text_of_bytes(bytes: &[u8]) -> (r: Option<String>)
    ensures
        r is Some <==> valid_utf8(bytes@),
        r is Some ==> r->Some_0@ == decode_utf8(bytes@),
{
    let r = string_from_utf8(vstd::slice::slice_to_vec(bytes));
    proof {
        if r is Some {
            vstd::utf8::encode_utf8_decode_utf8(r->Some_0@);
        }
    }
    r
}

/// The text of a field, if the field has this number and holds UTF-8.
pub fn get_text(f: &Field, number: u32) -> (r: Option<String>)
    ensures
        match field_text(f@, number) {
            Some(t) => r is Some && r->Some_0@ == t,
            None => r is None,
        },
{
    match get_bytes(f, number) {
        Some(b) => text_of_bytes(b.as_slice()),
        None => None,
    }
}

/// The bytes of a list of byte strings.
pub fn write_list(items: &Vec<Vec<u8>>) -> (out: Vec<u8>)
    ensures
        out@ == encode_list(bytes_list_view(items@)),
        items_ok(bytes_list_view(items@)),
{
    let mut w = RecordWriter::new();
    let mut i: usize = 0;
    while i < items.len()
        invariant
            i <= items@.len(),
            forall|j: int| 0 <= j < i ==> (#[trigger] items@[j])@.len() <= usize::MAX,
            w.wf(),
            w.fields() == list_record(bytes_list_view(items@)).take(i as int),
        decreases items@.len() - i,
    {
        w.put_bytes(1, items[i].as_slice());
        i += 1;
        assert(w.fields() =~= list_record(bytes_list_view(items@)).take(i as int));
    }
    assert(w.fields() =~= list_record(bytes_list_view(items@)));
    w.finish()
}

/// Reads a list of byte strings.
pub fn read_list(bytes: &[u8]) -> (r: Option<Vec<Vec<u8>>>)
    ensures
        match parse_list(bytes@) {
            Some(items) => r is Some && bytes_list_view(r->Some_0@) == items,
            None => r is None,
        },
{
    let fields = match read_fields(bytes) {
        Some(fields) => fields,
        None => { return None; },
    };
    let ghost fs = fields.deep_view();
    let mut items: Vec<Vec<u8>> = Vec::new();
    let mut i: usize = 0;
    while i < fields.len()
        invariant
            i <= fields@.len(),
            fs == fields.deep_view(),
            parse_fields(bytes@) == Some(fs),
            items@.len() == i,
            forall|j: int| 0 <= j < i ==> field_bytes(#[trigger] fs[j], 1) is Some,
            forall|j: int| 0 <= j < i ==> (#[trigger] items@[j])@ == fs[j].value->Bytes_0,
        decreases fields@.len() - i,
    {
        assert(fs[i as int] == fields@[i as int]@);
        match get_bytes(&fields[i], 1) {
            Some(b) => {
                items.push(b.clone());
            },
            None => {
                assert(field_bytes(fs[i as int], 1) is None);
                return None;
            },
        }
        i += 1;
    }
    assert(bytes_list_view(items@) =~= record_items(fs));
    Some(items)
}

/// The bytes of a list of 32-bit numbers.
pub fn write_int_list(items: &Vec<i32>) -> (out: Vec<u8>)
    ensures
        out@ == encode_int_list(items@),
{
    let mut w = RecordWriter::new();
    let mut i: usize = 0;
    while i < items.len()
        invariant
            i <= items@.len(),
            w.wf(),
            w.fields() == int_list_record(items@).take(i as int),
        decreases items@.len() - i,
    {
        w.put_i32(1, items[i]);
        i += 1;
        assert(w.fields() =~= int_list_record(items@).take(i as int));
    }
    assert(w.fields() =~= int_list_record(items@));
    w.finish()
}

/// Reads a list of 32-bit numbers.
pub fn read_int_list(bytes: &[u8]) -> (r: Option<Vec<i32>>)
    ensures
        match parse_int_list(bytes@) {
            Some(items) => r is Some && r->Some_0@ == items,
            None => r is None,
        },
{
    let fields = match read_fields(bytes) {
        Some(fields) => fields,
        None => { return None; },
    };
    let ghost fs = fields.deep_view();
    let mut items: Vec<i32> = Vec::new();
    let mut i: usize = 0;
    while i < fields.len()
        invariant
            i <= fields@.len(),
            fs == fields.deep_view(),
            parse_fields(bytes@) == Some(fs),
            items@.len() == i,
            forall|j: int| 0 <= j < i ==> field_i32(#[trigger] fs[j], 1) is Some,
            forall|j: int| 0 <= j < i ==> #[trigger] items@[j] == field_i32(fs[j], 1)->Some_0,
        decreases fields@.len() - i,
    {
        assert(fs[i as int] == fields@[i as int]@);
        match get_i32(&fields[i], 1) {
            Some(v) => {
                items.push(v);
            },
            None => {
                assert(field_i32(fs[i as int], 1) is None);
                return None;
            },
        }
        i += 1;
    }
    assert(items@ =~= record_ints(fs));
    Some(items)
}

/// The bytes of a list of texts.
pub fn write_text_list(texts: &Vec<String>) -> (out: Vec<u8>)
    ensures
        out@ == encode_text_list(text_list_view(texts@)),
        texts_ok(text_list_view(texts@)),
{
    let ghost items = text_items(text_list_view(texts@));
    let mut w = RecordWriter::new();
    let mut i: usize = 0;
    while i < texts.len()
        invariant
            i <= texts@.len(),
            forall|j: int| 0 <= j < i ==> encode_utf8((#[trigger] texts@[j])@).len() <= usize::MAX,
            items == text_items(text_list_view(texts@)),
            w.wf(),
            w.fields() == list_record(items).take(i as int),
        decreases texts@.len() - i,
    {
        w.put_text(1, texts[i].as_str());
        i += 1;
        assert(w.fields() =~= list_record(items).take(i as int));
    }
    assert(w.fields() =~= list_record(items));
    w.finish()
}

/// Reads a list of texts.
pub fn read_text_list(bytes: &[u8]) -> (r: Option<Vec<String>>)
    ensures
        match parse_text_list(bytes@) {
            Some(texts) => r is Some && text_list_view(r->Some_0@) == texts,
            None => r is None,
        },
{
    let items = match read_list(bytes) {
        Some(items) => items,
        None => { return None; },
    };
    let ghost raw = bytes_list_view(items@);
    let mut texts: Vec<String> = Vec::new();
    let mut i: usize = 0;
    while i < items.len()
        invariant
            i <= items@.len(),
            raw == bytes_list_view(items@),
            parse_list(bytes@) == Some(raw),
            texts@.len() == i,
            forall|j: int| 0 <= j < i ==> valid_utf8(#[trigger] raw[j]),
            forall|j: int| 0 <= j < i ==> (#[trigger] texts@[j])@ == decode_utf8(raw[j]),
        decreases items@.len() - i,
    {
        assert(raw[i as int] == items@[i as int]@);
        match text_of_bytes(items[i].as_slice()) {
            Some(t) => {
                texts.push(t);
            },
            None => {
                assert(!valid_utf8(raw[i as int]));
                return None;
            },
        }
        i += 1;
    }
    assert(text_list_view(texts@) =~= items_text(raw));
    Some(texts)
}

/// A copy of a list of byte strings.
pub fn copy_byte_strings(items: &Vec<Vec<u8>>) -> (copy: Vec<Vec<u8>>)
    ensures
        bytes_list_view(copy@) == bytes_list_view(items@),
{
    let mut copy: Vec<Vec<u8>> = Vec::new();
    let mut i: usize = 0;
    while i < items.len()
        invariant
            i <= items@.len(),
            copy@.len() == i,
            forall|j: int| 0 <= j < i ==> (#[trigger] copy@[j])@ == items@[j]@,
        decreases items@.len() - i,
    {
        copy.push(items[i].clone());
        i += 1;
    }
    assert(bytes_list_view(copy@) =~= bytes_list_view(items@));
    copy
}

/// A copy of a list of texts.
pub fn copy_texts(texts: &Vec<String>) -> (copy: Vec<String>)
    ensures
        text_list_view(copy@) == text_list_view(texts@),
{
    let mut copy: Vec<String> = Vec::new();
    let mut i: usize = 0;
    while i < texts.len()
        invariant
            i <= texts@.len(),
            copy@.len() == i,
            forall|j: int| 0 <= j < i ==> (#[trigger] copy@[j])@ == texts@[j]@,
        decreases texts@.len() - i,
    {
        copy.push(texts[i].clone());
        i += 1;
    }
    assert(text_list_view(copy@) =~= text_list_view(texts@));
    copy
}

} // verus!
