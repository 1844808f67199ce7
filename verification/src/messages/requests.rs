//! The two requests by which a node asks a seed for data.

use crate::codec::{
    bytes_list_view, copy_byte_strings, encode_int_list, encode_list, field_bytes, field_i32,
    field_text, get_bytes, get_i32, get_text, i32_field, items_ok, lemma_parse_encoded_int_list,
    lemma_parse_encoded_list, lemma_text_field, parse_int_list, parse_list, read_int_list,
    read_list, text_field, write_int_list, write_list, RecordWriter,
};
use crate::messages::address::{NodeAddress, NodeAddressView};
use crate::wire::{
    bytes_field, encode_fields, fields_ok, lemma_parse_encoded_fields, parse_fields, read_fields,
    WireField,
};
use vstd::prelude::*;
use vstd::utf8::encode_utf8;

verus! {

/// The first request of a handshake: everything the seed holds, but for
/// the entries whose keys are excluded.
#[derive(Clone, Debug, PartialEq, Eq)]
pub struct PreliminaryGetDataRequest {
    pub nonce: i32,
    pub excluded_keys: Vec<Vec<u8>>,
    pub version: String,
    pub supported_capabilities: Vec<i32>,
}

/// What a [`PreliminaryGetDataRequest`] holds.
pub ghost struct PreliminaryGetDataRequestView {
    pub nonce: i32,
    pub excluded_keys: Seq<Seq<u8>>,
    pub version: Seq<char>,
    pub supported_capabilities: Seq<i32>,
}

impl View for PreliminaryGetDataRequest {
    type V = PreliminaryGetDataRequestView;

    open spec fn view(&self) -> PreliminaryGetDataRequestView {
        PreliminaryGetDataRequestView {
            nonce: self.nonce,
            excluded_keys: bytes_list_view(self.excluded_keys@),
            version: self.version@,
            supported_capabilities: self.supported_capabilities@,
        }
    }
}

impl PreliminaryGetDataRequestView {
    /// The fields of the request, in the order in which they are written.
    pub open spec fn record(self) -> Seq<WireField> {
        seq![
            i32_field(1, self.nonce),
            bytes_field(2, encode_list(self.excluded_keys)),
            text_field(3, self.version),
            bytes_field(4, encode_int_list(self.supported_capabilities)),
        ]
    }

    /// The request that a record holds, if it has exactly these fields.
    pub open spec fn from_record(fs: Seq<WireField>) -> Option<PreliminaryGetDataRequestView> {
        if fs.len() == 4
            && field_i32(fs[0], 1) is Some
            && field_bytes(fs[1], 2) is Some
            && parse_list(field_bytes(fs[1], 2)->Some_0) is Some
            && field_text(fs[2], 3) is Some
            && field_bytes(fs[3], 4) is Some
            && parse_int_list(field_bytes(fs[3], 4)->Some_0) is Some
        {
            Some(
                PreliminaryGetDataRequestView {
                    nonce: field_i32(fs[0], 1)->Some_0,
                    excluded_keys: parse_list(field_bytes(fs[1], 2)->Some_0)->Some_0,
                    version: field_text(fs[2], 3)->Some_0,
                    supported_capabilities: parse_int_list(field_bytes(fs[3], 4)->Some_0)->Some_0,
                },
            )
        } else {
            None
        }
    }

    /// The canonical bytes of the request.
    pub open spec fn encode(self) -> Seq<u8> {
        encode_fields(self.record())
    }

    /// The request that `bytes` hold, if they hold one.
    pub open spec fn parse(bytes: Seq<u8>) -> Option<PreliminaryGetDataRequestView> {
        match parse_fields(bytes) {
            Some(fs) => Self::from_record(fs),
            None => None,
        }
    }

    /// Every length that the encoding states fits in 64 bits.
    pub open spec fn encodable(self) -> bool {
        &&& items_ok(self.excluded_keys)
        &&& encode_list(self.excluded_keys).len() <= u64::MAX
        &&& encode_utf8(self.version).len() <= u64::MAX
        &&& encode_int_list(self.supported_capabilities).len() <= u64::MAX
    }

    /// Parsing the bytes of a request gives that request back.
    pub proof fn lemma_roundtrip(self)
        requires
            self.encodable(),
        ensures
            Self::parse(self.encode()) == Some(self),
    {
        assert(fields_ok(self.record()));
        lemma_parse_encoded_fields(self.record());
        lemma_parse_encoded_list(self.excluded_keys);
        lemma_text_field(3, self.version);
        lemma_parse_encoded_int_list(self.supported_capabilities);
    }
}

impl PreliminaryGetDataRequest {
    /// Writes the request in its canonical form.
    pub fn to_bytes(&self) -> (out: Vec<u8>)
        ensures
            out@ == self@.encode(),
            self@.encodable(),
    {
        let excluded_keys = write_list(&self.excluded_keys);
        let supported_capabilities = write_int_list(&self.supported_capabilities);
        let mut w = RecordWriter::new();
        w.put_i32(1, self.nonce);
        w.put_bytes(2, excluded_keys.as_slice());
        w.put_text(3, self.version.as_str());
        w.put_bytes(4, supported_capabilities.as_slice());
        assert(w.fields() =~= self@.record());
        w.finish()
    }

    /// Reads a request from bytes.
    pub fn from_bytes(bytes: &[u8]) -> (r: Option<PreliminaryGetDataRequest>)
        ensures
            match PreliminaryGetDataRequestView::parse(bytes@) {
                Some(m) => r is Some && r->Some_0@ == m,
                None => r is None,
            },
    {
        let fields = read_fields(bytes)?;
        if fields.len() != 4 {
            return None;
        }
        assert(forall|i: int| 0 <= i < 4 ==> fields.deep_view()[i] == fields@[i]@);
        let nonce = get_i32(&fields[0], 1)?;
        let excluded_keys = read_list(get_bytes(&fields[1], 2)?.as_slice())?;
        let version = get_text(&fields[2], 3)?;
        let supported_capabilities = read_int_list(get_bytes(&fields[3], 4)?.as_slice())?;
        Some(PreliminaryGetDataRequest {
            nonce,
            excluded_keys,
            version,
            supported_capabilities,
        })
    }

    /// A copy with the same content.
    pub fn duplicate(&self) -> (copy: PreliminaryGetDataRequest)
        ensures
            copy@ == self@,
    {
        PreliminaryGetDataRequest {
            nonce: self.nonce,
            excluded_keys: copy_byte_strings(&self.excluded_keys),
            version: self.version.clone(),
            supported_capabilities: self.supported_capabilities.clone(),
        }
    }
}

/// The request for what changed since the first answer.
#[derive(Clone, Debug, PartialEq, Eq)]
pub struct GetUpdatedDataRequest {
    pub sender_node_address: NodeAddress,
    pub nonce: i32,
    pub excluded_keys: Vec<Vec<u8>>,
    pub version: String,
}

/// What a [`GetUpdatedDataRequest`] holds.
pub ghost struct GetUpdatedDataRequestView {
    pub sender_node_address: NodeAddressView,
    pub nonce: i32,
    pub excluded_keys: Seq<Seq<u8>>,
    pub version: Seq<char>,
}

impl View for GetUpdatedDataRequest {
    type V = GetUpdatedDataRequestView;

    open spec fn view(&self) -> GetUpdatedDataRequestView {
        GetUpdatedDataRequestView {
            sender_node_address: self.sender_node_address@,
            nonce: self.nonce,
            excluded_keys: bytes_list_view(self.excluded_keys@),
            version: self.version@,
        }
    }
}

impl GetUpdatedDataRequestView {
    /// The fields of the request, in the order in which they are written.
    pub open spec fn record(self) -> Seq<WireField> {
        seq![
            bytes_field(1, self.sender_node_address.encode()),
            i32_field(2, self.nonce),
            bytes_field(3, encode_list(self.excluded_keys)),
            text_field(4, self.version),
        ]
    }

    /// The request that a record holds, if it has exactly these fields.
    pub open spec fn from_record(fs: Seq<WireField>) -> Option<GetUpdatedDataRequestView> {
        if fs.len() == 4
            && field_bytes(fs[0], 1) is Some
            && NodeAddressView::parse(field_bytes(fs[0], 1)->Some_0) is Some
            && field_i32(fs[1], 2) is Some
            && field_bytes(fs[2], 3) is Some
            && parse_list(field_bytes(fs[2], 3)->Some_0) is Some
            && field_text(fs[3], 4) is Some
        {
            Some(
                GetUpdatedDataRequestView {
                    sender_node_address: NodeAddressView::parse(field_bytes(fs[0], 1)->Some_0)->Some_0,
                    nonce: field_i32(fs[1], 2)->Some_0,
                    excluded_keys: parse_list(field_bytes(fs[2], 3)->Some_0)->Some_0,
                    version: field_text(fs[3], 4)->Some_0,
                },
            )
        } else {
            None
        }
    }

    /// The canonical bytes of the request.
    pub open spec fn encode(self) -> Seq<u8> {
        encode_fields(self.record())
    }

    /// The request that `bytes` hold, if they hold one.
    pub open spec fn parse(bytes: Seq<u8>) -> Option<GetUpdatedDataRequestView> {
        match parse_fields(bytes) {
            Some(fs) => Self::from_record(fs),
            None => None,
        }
    }

    /// Every length that the encoding states fits in 64 bits.
    pub open spec fn encodable(self) -> bool {
        &&& self.sender_node_address.encodable()
        &&& self.sender_node_address.encode().len() <= u64::MAX
        &&& items_ok(self.excluded_keys)
        &&& encode_list(self.excluded_keys).len() <= u64::MAX
        &&& encode_utf8(self.version).len() <= u64::MAX
    }

    /// Parsing the bytes of a request gives that request back.
    pub proof fn lemma_roundtrip(self)
        requires
            self.encodable(),
        ensures
            Self::parse(self.encode()) == Some(self),
    {
        assert(fields_ok(self.record()));
        lemma_parse_encoded_fields(self.record());
        self.sender_node_address.lemma_roundtrip();
        lemma_parse_encoded_list(self.excluded_keys);
        lemma_text_field(4, self.version);
    }
}

impl GetUpdatedDataRequest {
    /// Writes the request in its canonical form.
    pub fn to_bytes(&self) -> (out: Vec<u8>)
        ensures
            out@ == self@.encode(),
            self@.encodable(),
    {
        let sender_node_address = self.sender_node_address.to_bytes();
        let excluded_keys = write_list(&self.excluded_keys);
        let mut w = RecordWriter::new();
        w.put_bytes(1, sender_node_address.as_slice());
        w.put_i32(2, self.nonce);
        w.put_bytes(3, excluded_keys.as_slice());
        w.put_text(4, self.version.as_str());
        assert(w.fields() =~= self@.record());
        w.finish()
    }

    /// Reads a request from bytes.
    pub fn from_bytes(bytes: &[u8]) -> (r: Option<GetUpdatedDataRequest>)
        ensures
            match GetUpdatedDataRequestView::parse(bytes@) {
                Some(m) => r is Some && r->Some_0@ == m,
                None => r is None,
            },
    {
        let fields = read_fields(bytes)?;
        if fields.len() != 4 {
            return None;
        }
        assert(forall|i: int| 0 <= i < 4 ==> fields.deep_view()[i] == fields@[i]@);
        let sender_node_address = NodeAddress::from_bytes(get_bytes(&fields[0], 1)?.as_slice())?;
        let nonce = get_i32(&fields[1], 2)?;
        let excluded_keys = read_list(get_bytes(&fields[2], 3)?.as_slice())?;
        let version = get_text(&fields[3], 4)?;
        Some(GetUpdatedDataRequest {
            sender_node_address,
            nonce,
            excluded_keys,
            version,
        })
    }

    /// A copy with the same content.
    pub fn duplicate(&self) -> (copy: GetUpdatedDataRequest)
        ensures
            copy@ == self@,
    {
        GetUpdatedDataRequest {
            sender_node_address: self.sender_node_address.duplicate(),
            nonce: self.nonce,
            excluded_keys: copy_byte_strings(&self.excluded_keys),
            version: self.version.clone(),
        }
    }
}

} // verus!
