//! Gossip payloads and the signed entries that carry them.

use crate::codec::{
    field_bytes, field_i64, field_u32, get_bytes, get_i64, get_u32, i64_field, u32_field,
    RecordWriter,
};
use crate::messages::filter::{Filter, FilterView};
use crate::wire::{
    bytes_field, encode_fields, fields_ok, lemma_parse_encoded_fields, parse_fields, read_fields,
    WireField,
};
use vstd::prelude::*;

verus! {

/// What a gossip entry can carry. Only the filter is read by this node;
/// the other kinds pass through as the bytes of their own record.
#[derive(Clone, Debug, PartialEq, Eq)]
pub enum StoragePayload {
    Filter(Filter),
    AccountAgeWitness(Vec<u8>),
    SignedWitness(Vec<u8>),
    TradeStatistics3(Vec<u8>),
}

/// What a [`StoragePayload`] holds.
pub ghost enum StoragePayloadView {
    Filter(FilterView),
    AccountAgeWitness(Seq<u8>),
    SignedWitness(Seq<u8>),
    TradeStatistics3(Seq<u8>),
}

impl View for StoragePayload {
    type V = StoragePayloadView;

    open spec fn view(&self) -> StoragePayloadView {
        match self {
            StoragePayload::Filter(f) => StoragePayloadView::Filter(f@),
            StoragePayload::AccountAgeWitness(b) => StoragePayloadView::AccountAgeWitness(b@),
            StoragePayload::SignedWitness(b) => StoragePayloadView::SignedWitness(b@),
            StoragePayload::TradeStatistics3(b) => StoragePayloadView::TradeStatistics3(b@),
        }
    }
}

impl StoragePayloadView {
    /// The single field of the payload; its number tells the kind.
    pub open spec fn record(self) -> Seq<WireField> {
        seq![
            match self {
                StoragePayloadView::Filter(f) => bytes_field(1, f.encode()),
                StoragePayloadView::AccountAgeWitness(b) => bytes_field(2, b),
                StoragePayloadView::SignedWitness(b) => bytes_field(3, b),
                StoragePayloadView::TradeStatistics3(b) => bytes_field(4, b),
            },
        ]
    }

    /// The payload that a record holds, if it has exactly one field of a
    /// known kind.
    pub open spec fn from_record(fs: Seq<WireField>) -> Option<StoragePayloadView> {
        if fs.len() != 1 {
            None
        } else if field_bytes(fs[0], 1) is Some {
            match FilterView::parse(field_bytes(fs[0], 1)->Some_0) {
                Some(f) => Some(StoragePayloadView::Filter(f)),
                None => None,
            }
        } else if field_bytes(fs[0], 2) is Some {
            Some(StoragePayloadView::AccountAgeWitness(field_bytes(fs[0], 2)->Some_0))
        } else if field_bytes(fs[0], 3) is Some {
            Some(StoragePayloadView::SignedWitness(field_bytes(fs[0], 3)->Some_0))
        } else if field_bytes(fs[0], 4) is Some {
            Some(StoragePayloadView::TradeStatistics3(field_bytes(fs[0], 4)->Some_0))
        } else {
            None
        }
    }

    /// The canonical bytes of the payload.
    pub open spec fn encode(self) -> Seq<u8> {
        encode_fields(self.record())
    }

    /// The payload that `bytes` hold, if they hold one.
    pub open spec fn parse(bytes: Seq<u8>) -> Option<StoragePayloadView> {
        match parse_fields(bytes) {
            Some(fs) => Self::from_record(fs),
            None => None,
        }
    }

    /// Every length that the encoding states fits in 64 bits.
    pub open spec fn encodable(self) -> bool {
        match self {
            StoragePayloadView::Filter(f) => f.encodable() && f.encode().len() <= u64::MAX,
            StoragePayloadView::AccountAgeWitness(b) => b.len() <= u64::MAX,
            StoragePayloadView::SignedWitness(b) => b.len() <= u64::MAX,
            StoragePayloadView::TradeStatistics3(b) => b.len() <= u64::MAX,
        }
    }

    /// Parsing the bytes of a payload gives that payload back.
    pub proof fn lemma_roundtrip(self)
        requires
            self.encodable(),
        ensures
            Self::parse(self.encode()) == Some(self),
    {
        assert(fields_ok(self.record()));
        lemma_parse_encoded_fields(self.record());
        if let StoragePayloadView::Filter(f) = self {
            f.lemma_roundtrip();
        }
    }
}

impl StoragePayload {
    /// Writes the payload in its canonical form.
    pub fn to_bytes(&self) -> (out: Vec<u8>)
        ensures
            out@ == self@.encode(),
            self@.encodable(),
    {
        let mut w = RecordWriter::new();
        match self {
            StoragePayload::Filter(f) => {
                let inner = f.to_bytes();
                w.put_bytes(1, inner.as_slice());
            },
            StoragePayload::AccountAgeWitness(b) => {
                w.put_bytes(2, b.as_slice());
            },
            StoragePayload::SignedWitness(b) => {
                w.put_bytes(3, b.as_slice());
            },
            StoragePayload::TradeStatistics3(b) => {
                w.put_bytes(4, b.as_slice());
            },
        }
        assert(w.fields() =~= self@.record());
        w.finish()
    }

    /// Reads a payload from bytes.
    pub fn from_bytes(bytes: &[u8]) -> (r: Option<StoragePayload>)
        ensures
            match StoragePayloadView::parse(bytes@) {
                Some(m) => r is Some && r->Some_0@ == m,
                None => r is None,
            },
    {
        let fields = read_fields(bytes)?;
        if fields.len() != 1 {
            return None;
        }
        assert(fields.deep_view()[0] == fields@[0]@);
        let field = &fields[0];
        if let Some(inner) = get_bytes(field, 1) {
            let filter = Filter::from_bytes(inner.as_slice())?;
            Some(StoragePayload::Filter(filter))
        } else if let Some(inner) = get_bytes(field, 2) {
            Some(StoragePayload::AccountAgeWitness(inner.clone()))
        } else if let Some(inner) = get_bytes(field, 3) {
            Some(StoragePayload::SignedWitness(inner.clone()))
        } else if let Some(inner) = get_bytes(field, 4) {
            Some(StoragePayload::TradeStatistics3(inner.clone()))
        } else {
            None
        }
    }

    /// A copy with the same content.
    pub fn duplicate(&self) -> (copy: StoragePayload)
        ensures
            copy@ == self@,
    {
        match self {
            StoragePayload::Filter(f) => StoragePayload::Filter(f.duplicate()),
            StoragePayload::AccountAgeWitness(b) => StoragePayload::AccountAgeWitness(b.clone()),
            StoragePayload::SignedWitness(b) => StoragePayload::SignedWitness(b.clone()),
            StoragePayload::TradeStatistics3(b) => StoragePayload::TradeStatistics3(b.clone()),
        }
    }
}

/// A gossip entry: a payload, the key that owns it, a sequence number that
/// orders the owner's updates, the owner's signature over the payload and
/// the time of creation in milliseconds.
#[derive(Clone, Debug, PartialEq, Eq)]
pub struct ProtectedStorageEntry {
    pub storage_payload: StoragePayload,
    pub owner_pub_key_bytes: Vec<u8>,
    pub sequence_number: u32,
    pub signature: Vec<u8>,
    pub creation_time_stamp: i64,
}

/// What a [`ProtectedStorageEntry`] holds.
pub ghost struct ProtectedStorageEntryView {
    pub storage_payload: StoragePayloadView,
    pub owner_pub_key_bytes: Seq<u8>,
    pub sequence_number: u32,
    pub signature: Seq<u8>,
    pub creation_time_stamp: i64,
}

impl View for ProtectedStorageEntry {
    type V = ProtectedStorageEntryView;

    open spec fn view(&self) -> ProtectedStorageEntryView {
        ProtectedStorageEntryView {
            storage_payload: self.storage_payload@,
            owner_pub_key_bytes: self.owner_pub_key_bytes@,
            sequence_number: self.sequence_number,
            signature: self.signature@,
            creation_time_stamp: self.creation_time_stamp,
        }
    }
}

impl ProtectedStorageEntryView {
    /// The fields of the entry, in the order in which they are written.
    pub open spec fn record(self) -> Seq<WireField> {
        seq![
            bytes_field(1, self.storage_payload.encode()),
            bytes_field(2, self.owner_pub_key_bytes),
            u32_field(3, self.sequence_number),
            bytes_field(4, self.signature),
            i64_field(5, self.creation_time_stamp),
        ]
    }

    /// The entry that a record holds, if it has exactly these fields.
    pub open spec fn from_record(fs: Seq<WireField>) -> Option<ProtectedStorageEntryView> {
        if fs.len() == 5
            && field_bytes(fs[0], 1) is Some
            && StoragePayloadView::parse(field_bytes(fs[0], 1)->Some_0) is Some
            && field_bytes(fs[1], 2) is Some
            && field_u32(fs[2], 3) is Some
            && field_bytes(fs[3], 4) is Some
            && field_i64(fs[4], 5) is Some
        {
            Some(
                ProtectedStorageEntryView {
                    storage_payload: StoragePayloadView::parse(field_bytes(fs[0], 1)->Some_0)->Some_0,
                    owner_pub_key_bytes: field_bytes(fs[1], 2)->Some_0,
                    sequence_number: field_u32(fs[2], 3)->Some_0,
                    signature: field_bytes(fs[3], 4)->Some_0,
                    creation_time_stamp: field_i64(fs[4], 5)->Some_0,
                },
            )
        } else {
            None
        }
    }

    /// The canonical bytes of the entry.
    pub open spec fn encode(self) -> Seq<u8> {
        encode_fields(self.record())
    }

    /// The entry that `bytes` hold, if they hold one.
    pub open spec fn parse(bytes: Seq<u8>) -> Option<ProtectedStorageEntryView> {
        match parse_fields(bytes) {
            Some(fs) => Self::from_record(fs),
            None => None,
        }
    }

    /// Every length that the encoding states fits in 64 bits.
    pub open spec fn encodable(self) -> bool {
        &&& self.storage_payload.encodable()
        &&& self.storage_payload.encode().len() <= u64::MAX
        &&& self.owner_pub_key_bytes.len() <= u64::MAX
        &&& self.signature.len() <= u64::MAX
    }

    /// Parsing the bytes of a entry gives that entry back.
    pub proof fn lemma_roundtrip(self)
        requires
            self.encodable(),
        ensures
            Self::parse(self.encode()) == Some(self),
    {
        assert(fields_ok(self.record()));
        lemma_parse_encoded_fields(self.record());
        self.storage_payload.lemma_roundtrip();
    }
}

impl ProtectedStorageEntry {
    /// Writes the entry in its canonical form.
    pub fn to_bytes(&self) -> (out: Vec<u8>)
        ensures
            out@ == self@.encode(),
            self@.encodable(),
    {
        let storage_payload = self.storage_payload.to_bytes();
        let mut w = RecordWriter::new();
        w.put_bytes(1, storage_payload.as_slice());
        w.put_bytes(2, self.owner_pub_key_bytes.as_slice());
        w.put_u32(3, self.sequence_number);
        w.put_bytes(4, self.signature.as_slice());
        w.put_i64(5, self.creation_time_stamp);
        assert(w.fields() =~= self@.record());
        w.finish()
    }

    /// Reads a entry from bytes.
    pub fn from_bytes(bytes: &[u8]) -> (r: Option<ProtectedStorageEntry>)
        ensures
            match ProtectedStorageEntryView::parse(bytes@) {
                Some(m) => r is Some && r->Some_0@ == m,
                None => r is None,
            },
    {
        let fields = read_fields(bytes)?;
        if fields.len() != 5 {
            return None;
        }
        assert(forall|i: int| 0 <= i < 5 ==> fields.deep_view()[i] == fields@[i]@);
        let storage_payload = StoragePayload::from_bytes(get_bytes(&fields[0], 1)?.as_slice())?;
        let owner_pub_key_bytes = get_bytes(&fields[1], 2)?.clone();
        let sequence_number = get_u32(&fields[2], 3)?;
        let signature = get_bytes(&fields[3], 4)?.clone();
        let creation_time_stamp = get_i64(&fields[4], 5)?;
        Some(ProtectedStorageEntry {
            storage_payload,
            owner_pub_key_bytes,
            sequence_number,
            signature,
            creation_time_stamp,
        })
    }

    /// A copy with the same content.
    pub fn duplicate(&self) -> (copy: ProtectedStorageEntry)
        ensures
            copy@ == self@,
    {
        ProtectedStorageEntry {
            storage_payload: self.storage_payload.duplicate(),
            owner_pub_key_bytes: self.owner_pub_key_bytes.clone(),
            sequence_number: self.sequence_number,
            signature: self.signature.clone(),
            creation_time_stamp: self.creation_time_stamp,
        }
    }
}

/// The forms in which an entry can be published; so far there is one.
#[derive(Clone, Debug, PartialEq, Eq)]
pub enum StorageEntryWrapper {
    ProtectedStorageEntry(ProtectedStorageEntry),
}

/// What a [`StorageEntryWrapper`] holds.
pub ghost enum StorageEntryWrapperView {
    ProtectedStorageEntry(ProtectedStorageEntryView),
}

impl View for StorageEntryWrapper {
    type V = StorageEntryWrapperView;

    open spec fn view(&self) -> StorageEntryWrapperView {
        match self {
            StorageEntryWrapper::ProtectedStorageEntry(e) => {
                StorageEntryWrapperView::ProtectedStorageEntry(e@)
            },
        }
    }
}

impl StorageEntryWrapperView {
    /// The entry this wrapper holds.
    pub open spec fn entry(self) -> ProtectedStorageEntryView {
        self->ProtectedStorageEntry_0
    }

    /// The single field of the wrapper; its number tells the form.
    pub open spec fn record(self) -> Seq<WireField> {
        seq![bytes_field(1, self.entry().encode())]
    }

    /// The wrapper that a record holds, if it has exactly one field of a
    /// known form.
    pub open spec fn from_record(fs: Seq<WireField>) -> Option<StorageEntryWrapperView> {
        if fs.len() == 1 && field_bytes(fs[0], 1) is Some && ProtectedStorageEntryView::parse(
            field_bytes(fs[0], 1)->Some_0,
        ) is Some {
            Some(
                StorageEntryWrapperView::ProtectedStorageEntry(
                    ProtectedStorageEntryView::parse(field_bytes(fs[0], 1)->Some_0)->Some_0,
                ),
            )
        } else {
            None
        }
    }

    /// The canonical bytes of the wrapper.
    pub open spec fn encode(self) -> Seq<u8> {
        encode_fields(self.record())
    }

    /// The wrapper that `bytes` hold, if they hold one.
    pub open spec fn parse(bytes: Seq<u8>) -> Option<StorageEntryWrapperView> {
        match parse_fields(bytes) {
            Some(fs) => Self::from_record(fs),
            None => None,
        }
    }

    /// Every length that the encoding states fits in 64 bits.
    pub open spec fn encodable(self) -> bool {
        self.entry().encodable() && self.entry().encode().len() <= u64::MAX
    }

    /// Parsing the bytes of a wrapper gives that wrapper back.
    pub proof fn lemma_roundtrip(self)
        requires
            self.encodable(),
        ensures
            Self::parse(self.encode()) == Some(self),
    {
        assert(fields_ok(self.record()));
        lemma_parse_encoded_fields(self.record());
        self.entry().lemma_roundtrip();
    }
}

impl StorageEntryWrapper {
    /// Writes the wrapper in its canonical form.
    pub fn to_bytes(&self) -> (out: Vec<u8>)
        ensures
            out@ == self@.encode(),
            self@.encodable(),
    {
        let mut w = RecordWriter::new();
        match self {
            StorageEntryWrapper::ProtectedStorageEntry(e) => {
                let inner = e.to_bytes();
                w.put_bytes(1, inner.as_slice());
            },
        }
        assert(w.fields() =~= self@.record());
        w.finish()
    }

    /// Reads a wrapper from bytes.
    pub fn from_bytes(bytes: &[u8]) -> (r: Option<StorageEntryWrapper>)
        ensures
            match StorageEntryWrapperView::parse(bytes@) {
                Some(m) => r is Some && r->Some_0@ == m,
                None => r is None,
            },
    {
        let fields = read_fields(bytes)?;
        if fields.len() != 1 {
            return None;
        }
        assert(fields.deep_view()[0] == fields@[0]@);
        let entry = ProtectedStorageEntry::from_bytes(get_bytes(&fields[0], 1)?.as_slice())?;
        Some(StorageEntryWrapper::ProtectedStorageEntry(entry))
    }

    /// A copy with the same content.
    pub fn duplicate(&self) -> (copy: StorageEntryWrapper)
        ensures
            copy@ == self@,
    {
        match self {
            StorageEntryWrapper::ProtectedStorageEntry(e) => {
                StorageEntryWrapper::ProtectedStorageEntry(e.duplicate())
            },
        }
    }
}

/// The message that publishes one entry into the replicated store.
#[derive(Clone, Debug, PartialEq, Eq)]
pub struct AddDataMessage {
    pub entry: StorageEntryWrapper,
}

/// What a [`AddDataMessage`] holds.
pub ghost struct AddDataMessageView {
    pub entry: StorageEntryWrapperView,
}

impl View for AddDataMessage {
    type V = AddDataMessageView;

    open spec fn view(&self) -> AddDataMessageView {
        AddDataMessageView {
            entry: self.entry@,
        }
    }
}

impl AddDataMessageView {
    /// The fields of the message, in the order in which they are written.
    pub open spec fn record(self) -> Seq<WireField> {
        seq![
            bytes_field(1, self.entry.encode()),
        ]
    }

    /// The message that a record holds, if it has exactly these fields.
    pub open spec fn from_record(fs: Seq<WireField>) -> Option<AddDataMessageView> {
        if fs.len() == 1
            && field_bytes(fs[0], 1) is Some
            && StorageEntryWrapperView::parse(field_bytes(fs[0], 1)->Some_0) is Some
        {
            Some(
                AddDataMessageView {
                    entry: StorageEntryWrapperView::parse(field_bytes(fs[0], 1)->Some_0)->Some_0,
                },
            )
        } else {
            None
        }
    }

    /// The canonical bytes of the message.
    pub open spec fn encode(self) -> Seq<u8> {
        encode_fields(self.record())
    }

    /// The message that `bytes` hold, if they hold one.
    pub open spec fn parse(bytes: Seq<u8>) -> Option<AddDataMessageView> {
        match parse_fields(bytes) {
            Some(fs) => Self::from_record(fs),
            None => None,
        }
    }

    /// Every length that the encoding states fits in 64 bits.
    pub open spec fn encodable(self) -> bool {
        &&& self.entry.encodable()
        &&& self.entry.encode().len() <= u64::MAX
    }

    /// Parsing the bytes of a message gives that message back.
    pub proof fn lemma_roundtrip(self)
        requires
            self.encodable(),
        ensures
            Self::parse(self.encode()) == Some(self),
    {
        assert(fields_ok(self.record()));
        lemma_parse_encoded_fields(self.record());
        self.entry.lemma_roundtrip();
    }
}

impl AddDataMessage {
    /// Writes the message in its canonical form.
    pub fn to_bytes(&self) -> (out: Vec<u8>)
        ensures
            out@ == self@.encode(),
            self@.encodable(),
    {
        let entry = self.entry.to_bytes();
        let mut w = RecordWriter::new();
        w.put_bytes(1, entry.as_slice());
        assert(w.fields() =~= self@.record());
        w.finish()
    }

    /// Reads a message from bytes.
    pub fn from_bytes(bytes: &[u8]) -> (r: Option<AddDataMessage>)
        ensures
            match AddDataMessageView::parse(bytes@) {
                Some(m) => r is Some && r->Some_0@ == m,
                None => r is None,
            },
    {
        let fields = read_fields(bytes)?;
        if fields.len() != 1 {
            return None;
        }
        assert(forall|i: int| 0 <= i < 1 ==> fields.deep_view()[i] == fields@[i]@);
        let entry = StorageEntryWrapper::from_bytes(get_bytes(&fields[0], 1)?.as_slice())?;
        Some(AddDataMessage {
            entry,
        })
    }

    /// A copy with the same content.
    pub fn duplicate(&self) -> (copy: AddDataMessage)
        ensures
            copy@ == self@,
    {
        AddDataMessage {
            entry: self.entry.duplicate(),
        }
    }
}

} // verus!
