//! The answer of a seed to a request for data.

use crate::codec::{
    encode_int_list, encode_list, field_bytes, field_i32, get_bytes, get_i32, i32_field,
    items_ok, lemma_parse_encoded_int_list, lemma_parse_encoded_list, parse_int_list,
    parse_list, read_int_list, read_list, write_int_list, write_list, bytes_list_view,
    RecordWriter,
};
use crate::messages::storage::{StoragePayload, StoragePayloadView};
use crate::wire::{
    bytes_field, encode_fields, fields_ok, lemma_parse_encoded_fields, parse_fields, read_fields,
    WireField,
};
use vstd::prelude::*;

verus! {

/// The payloads that a vector of payloads holds.
pub open spec fn payloads_view(v: Seq<StoragePayload>) -> Seq<StoragePayloadView> {
    Seq::new(v.len(), |i: int| v[i]@)
}

/// The canonical bytes of each payload of a list.
pub open spec fn payload_items(items: Seq<StoragePayloadView>) -> Seq<Seq<u8>> {
    Seq::new(items.len(), |i: int| items[i].encode())
}

/// The bytes of a list of payloads.
pub open spec fn encode_payload_list(items: Seq<StoragePayloadView>) -> Seq<u8> {
    encode_list(payload_items(items))
}

/// Every byte string holds a payload.
pub open spec fn items_are_payloads(raw: Seq<Seq<u8>>) -> bool {
    forall|i: int| 0 <= i < raw.len() ==> StoragePayloadView::parse(#[trigger] raw[i]) is Some
}

/// The payloads that the byte strings hold, in order.
pub open spec fn items_payloads(raw: Seq<Seq<u8>>) -> Seq<StoragePayloadView> {
    Seq::new(raw.len(), |i: int| StoragePayloadView::parse(raw[i])->Some_0)
}

/// The list of payloads that `bytes` hold, if they hold one.
pub open spec fn parse_payload_list(bytes: Seq<u8>) -> Option<Seq<StoragePayloadView>> {
    match parse_list(bytes) {
        Some(raw) => if items_are_payloads(raw) {
            Some(items_payloads(raw))
        } else {
            None
        },
        None => None,
    }
}

/// Every payload can be written, and so can its length.
pub open spec fn payloads_ok(items: Seq<StoragePayloadView>) -> bool {
    forall|i: int|
        0 <= i < items.len() ==> (#[trigger] items[i]).encodable() && items[i].encode().len()
            <= u64::MAX
}

/// Parsing the bytes of a list of payloads gives the list back.
pub proof fn lemma_parse_encoded_payload_list(items: Seq<StoragePayloadView>)
    requires
        payloads_ok(items),
    ensures
        parse_payload_list(encode_payload_list(items)) == Some(items),
{
    let raw = payload_items(items);
    assert(items_ok(raw));
    lemma_parse_encoded_list(raw);
    assert forall|i: int| 0 <= i < raw.len() implies StoragePayloadView::parse(#[trigger] raw[i])
        == Some(items[i]) by {
        items[i].lemma_roundtrip();
    }
    assert(items_payloads(raw) =~= items);
}

/// The bytes of a list of payloads.
pub fn write_payload_list(items: &Vec<StoragePayload>) -> (out: Vec<u8>)
    ensures
        out@ == encode_payload_list(payloads_view(items@)),
        payloads_ok(payloads_view(items@)),
{
    let mut raw: Vec<Vec<u8>> = Vec::new();
    let mut i: usize = 0;
    while i < items.len()
        invariant
            i <= items@.len(),
            raw@.len() == i,
            forall|j: int| 0 <= j < i ==> (#[trigger] raw@[j])@ == items@[j]@.encode(),
            forall|j: int|
                0 <= j < i ==> (#[trigger] items@[j])@.encodable() && items@[j]@.encode().len()
                    <= usize::MAX,
        decreases items@.len() - i,
    {
        let bytes = items[i].to_bytes();
        assert(bytes@.len() == bytes.len());
        raw.push(bytes);
        i += 1;
    }
    assert(bytes_list_view(raw@) =~= payload_items(payloads_view(items@)));
    write_list(&raw)
}

/// Reads a list of payloads.
pub fn read_payload_list(bytes: &[u8]) -> (r: Option<Vec<StoragePayload>>)
    ensures
        match parse_payload_list(bytes@) {
            Some(items) => r is Some && payloads_view(r->Some_0@) == items,
            None => r is None,
        },
{
    let raw = match read_list(bytes) {
        Some(raw) => raw,
        None => { return None; },
    };
    let ghost raw_view = bytes_list_view(raw@);
    let mut items: Vec<StoragePayload> = Vec::new();
    let mut i: usize = 0;
    while i < raw.len()
        invariant
            i <= raw@.len(),
            raw_view == bytes_list_view(raw@),
            parse_list(bytes@) == Some(raw_view),
            items@.len() == i,
            forall|j: int| 0 <= j < i ==> StoragePayloadView::parse(#[trigger] raw_view[j]) is Some,
            forall|j: int|
                0 <= j < i ==> (#[trigger] items@[j])@ == StoragePayloadView::parse(
                    raw_view[j],
                )->Some_0,
        decreases raw@.len() - i,
    {
        assert(raw_view[i as int] == raw@[i as int]@);
        match StoragePayload::from_bytes(raw[i].as_slice()) {
            Some(p) => {
                items.push(p);
            },
            None => {
                assert(StoragePayloadView::parse(raw_view[i as int]) is None);
                return None;
            },
        }
        i += 1;
    }
    assert(payloads_view(items@) =~= items_payloads(raw_view));
    Some(items)
}

/// A copy of a list of payloads.
pub fn copy_payloads(items: &Vec<StoragePayload>) -> (copy: Vec<StoragePayload>)
    ensures
        payloads_view(copy@) == payloads_view(items@),
{
    let mut copy: Vec<StoragePayload> = Vec::new();
    let mut i: usize = 0;
    while i < items.len()
        invariant
            i <= items@.len(),
            copy@.len() == i,
            forall|j: int| 0 <= j < i ==> (#[trigger] copy@[j])@ == items@[j]@,
        decreases items@.len() - i,
    {
        copy.push(items[i].duplicate());
        i += 1;
    }
    assert(payloads_view(copy@) =~= payloads_view(items@));
    copy
}

/// What the seed holds, in answer to the request that carried
/// `request_nonce`.
#[derive(Clone, Debug, PartialEq, Eq)]
pub struct GetDataResponse {
    pub request_nonce: i32,
    pub supported_capabilities: Vec<i32>,
    pub items: Vec<StoragePayload>,
}

/// What a [`GetDataResponse`] holds.
pub ghost struct GetDataResponseView {
    pub request_nonce: i32,
    pub supported_capabilities: Seq<i32>,
    pub items: Seq<StoragePayloadView>,
}

impl View for GetDataResponse {
    type V = GetDataResponseView;

    open spec fn view(&self) -> GetDataResponseView {
        GetDataResponseView {
            request_nonce: self.request_nonce,
            supported_capabilities: self.supported_capabilities@,
            items: payloads_view(self.items@),
        }
    }
}

impl GetDataResponseView {
    /// The fields of the response, in the order in which they are written.
    pub open spec fn record(self) -> Seq<WireField> {
        seq![
            i32_field(1, self.request_nonce),
            bytes_field(2, encode_int_list(self.supported_capabilities)),
            bytes_field(3, encode_payload_list(self.items)),
        ]
    }

    /// The response that a record holds, if it has exactly these fields.
    pub open spec fn from_record(fs: Seq<WireField>) -> Option<GetDataResponseView> {
        if fs.len() == 3
            && field_i32(fs[0], 1) is Some
            && field_bytes(fs[1], 2) is Some
            && parse_int_list(field_bytes(fs[1], 2)->Some_0) is Some
            && field_bytes(fs[2], 3) is Some
            && parse_payload_list(field_bytes(fs[2], 3)->Some_0) is Some
        {
            Some(
                GetDataResponseView {
                    request_nonce: field_i32(fs[0], 1)->Some_0,
                    supported_capabilities: parse_int_list(field_bytes(fs[1], 2)->Some_0)->Some_0,
                    items: parse_payload_list(field_bytes(fs[2], 3)->Some_0)->Some_0,
                },
            )
        } else {
            None
        }
    }

    /// The canonical bytes of the response.
    pub open spec fn encode(self) -> Seq<u8> {
        encode_fields(self.record())
    }

    /// The response that `bytes` hold, if they hold one.
    pub open spec fn parse(bytes: Seq<u8>) -> Option<GetDataResponseView> {
        match parse_fields(bytes) {
            Some(fs) => Self::from_record(fs),
            None => None,
        }
    }

    /// Every length that the encoding states fits in 64 bits.
    pub open spec fn encodable(self) -> bool {
        &&& encode_int_list(self.supported_capabilities).len() <= u64::MAX
        &&& payloads_ok(self.items)
        &&& encode_payload_list(self.items).len() <= u64::MAX
    }

    /// Parsing the bytes of a response gives that response back.
    pub proof fn lemma_roundtrip(self)
        requires
            self.encodable(),
        ensures
            Self::parse(self.encode()) == Some(self),
    {
        assert(fields_ok(self.record()));
        lemma_parse_encoded_fields(self.record());
        lemma_parse_encoded_int_list(self.supported_capabilities);
        lemma_parse_encoded_payload_list(self.items);
    }
}

impl GetDataResponse {
    /// Writes the response in its canonical form.
    pub fn to_bytes(&self) -> (out: Vec<u8>)
        ensures
            out@ == self@.encode(),
            self@.encodable(),
    {
        let supported_capabilities = write_int_list(&self.supported_capabilities);
        let items = write_payload_list(&self.items);
        let mut w = RecordWriter::new();
        w.put_i32(1, self.request_nonce);
        w.put_bytes(2, supported_capabilities.as_slice());
        w.put_bytes(3, items.as_slice());
        assert(w.fields() =~= self@.record());
        w.finish()
    }

    /// Reads a response from bytes.
    pub fn from_bytes(bytes: &[u8]) -> (r: Option<GetDataResponse>)
        ensures
            match GetDataResponseView::parse(bytes@) {
                Some(m) => r is Some && r->Some_0@ == m,
                None => r is None,
            },
    {
        let fields = read_fields(bytes)?;
        if fields.len() != 3 {
            return None;
        }
        assert(forall|i: int| 0 <= i < 3 ==> fields.deep_view()[i] == fields@[i]@);
        let request_nonce = get_i32(&fields[0], 1)?;
        let supported_capabilities = read_int_list(get_bytes(&fields[1], 2)?.as_slice())?;
        let items = read_payload_list(get_bytes(&fields[2], 3)?.as_slice())?;
        Some(GetDataResponse { request_nonce, supported_capabilities, items })
    }

    /// A copy with the same content.
    pub fn duplicate(&self) -> (copy: GetDataResponse)
        ensures
            copy@ == self@,
    {
        GetDataResponse {
            request_nonce: self.request_nonce,
            supported_capabilities: self.supported_capabilities.clone(),
            items: copy_payloads(&self.items),
        }
    }
}

} // verus!
