//! The outermost wire message: a protocol version and exactly one payload.

use crate::codec::{
    field_bytes, field_text, get_bytes, get_text, lemma_text_field, text_field, RecordWriter,
};
use crate::messages::ack::{AckMessage, AckMessageView};
use crate::messages::requests::{
    GetUpdatedDataRequest, GetUpdatedDataRequestView, PreliminaryGetDataRequest,
    PreliminaryGetDataRequestView,
};
use crate::messages::response::{GetDataResponse, GetDataResponseView};
use crate::messages::storage::{AddDataMessage, AddDataMessageView};
use crate::wire::{
    bytes_field, encode_fields, fields_ok, lemma_parse_encoded_fields, parse_fields, read_fields,
    WireField,
};
use vstd::prelude::*;
use vstd::utf8::encode_utf8;

verus! {

/// The closed set of payload kinds an envelope can carry.
#[derive(Clone, Copy, Debug, PartialEq, Eq, Hash, Structural)]
pub enum MessageKind {
    PreliminaryGetDataRequest,
    GetDataResponse,
    GetUpdatedDataRequest,
    AckMessage,
    AddDataMessage,
}

impl MessageKind {
    /// The field number under which a payload of this kind travels.
    pub open spec fn spec_field_number(self) -> u32 {
        match self {
            MessageKind::PreliminaryGetDataRequest => 2,
            MessageKind::GetDataResponse => 3,
            MessageKind::GetUpdatedDataRequest => 4,
            MessageKind::AckMessage => 5,
            MessageKind::AddDataMessage => 6,
        }
    }

    /// The field number under which a payload of this kind travels.
    #[verifier::when_used_as_spec(spec_field_number)]
    pub fn field_number(self) -> (number: u32)
        ensures
            number == self.spec_field_number(),
    {
        match self {
            MessageKind::PreliminaryGetDataRequest => 2,
            MessageKind::GetDataResponse => 3,
            MessageKind::GetUpdatedDataRequest => 4,
            MessageKind::AckMessage => 5,
            MessageKind::AddDataMessage => 6,
        }
    }

    /// The name of the kind as handlers are registered under it.
    pub open spec fn spec_name(self) -> Seq<char> {
        match self {
            MessageKind::PreliminaryGetDataRequest => "PreliminaryGetDataRequest"@,
            MessageKind::GetDataResponse => "GetDataResponse"@,
            MessageKind::GetUpdatedDataRequest => "GetUpdatedDataRequest"@,
            MessageKind::AckMessage => "AckMessage"@,
            MessageKind::AddDataMessage => "AddDataMessage"@,
        }
    }

    /// The name of the kind as handlers are registered under it.
    pub fn name(self) -> (name: &'static str)
        ensures
            name@ == self.spec_name(),
    {
        match self {
            MessageKind::PreliminaryGetDataRequest => "PreliminaryGetDataRequest",
            MessageKind::GetDataResponse => "GetDataResponse",
            MessageKind::GetUpdatedDataRequest => "GetUpdatedDataRequest",
            MessageKind::AckMessage => "AckMessage",
            MessageKind::AddDataMessage => "AddDataMessage",
        }
    }
}

/// No two kinds share a name, so a handler that is registered under the
/// name of a kind is found for envelopes of that kind and of no other.
pub proof fn kind_names_are_distinct(a: MessageKind, b: MessageKind)
    requires
        a != b,
    ensures
        a.spec_name() != b.spec_name(),
{
    reveal_strlit("PreliminaryGetDataRequest");
    reveal_strlit("GetDataResponse");
    reveal_strlit("GetUpdatedDataRequest");
    reveal_strlit("AckMessage");
    reveal_strlit("AddDataMessage");
    assert(a.spec_name().len() != b.spec_name().len());
}

/// The payload of an envelope.
#[derive(Clone, Debug, PartialEq, Eq)]
pub enum Payload {
    PreliminaryGetDataRequest(PreliminaryGetDataRequest),
    GetDataResponse(GetDataResponse),
    GetUpdatedDataRequest(GetUpdatedDataRequest),
    AckMessage(AckMessage),
    AddDataMessage(AddDataMessage),
}

/// The name the payload goes by where messages are built and matched.
pub type EnvMsg = Payload;

/// What a [`Payload`] holds.
pub ghost enum PayloadView {
    PreliminaryGetDataRequest(PreliminaryGetDataRequestView),
    GetDataResponse(GetDataResponseView),
    GetUpdatedDataRequest(GetUpdatedDataRequestView),
    AckMessage(AckMessageView),
    AddDataMessage(AddDataMessageView),
}

impl View for Payload {
    type V = PayloadView;

    open spec fn view(&self) -> PayloadView {
        match self {
            Payload::PreliminaryGetDataRequest(m) => PayloadView::PreliminaryGetDataRequest(m@),
            Payload::GetDataResponse(m) => PayloadView::GetDataResponse(m@),
            Payload::GetUpdatedDataRequest(m) => PayloadView::GetUpdatedDataRequest(m@),
            Payload::AckMessage(m) => PayloadView::AckMessage(m@),
            Payload::AddDataMessage(m) => PayloadView::AddDataMessage(m@),
        }
    }
}

impl PayloadView {
    /// The kind of the payload.
    pub open spec fn kind(self) -> MessageKind {
        match self {
            PayloadView::PreliminaryGetDataRequest(_) => MessageKind::PreliminaryGetDataRequest,
            PayloadView::GetDataResponse(_) => MessageKind::GetDataResponse,
            PayloadView::GetUpdatedDataRequest(_) => MessageKind::GetUpdatedDataRequest,
            PayloadView::AckMessage(_) => MessageKind::AckMessage,
            PayloadView::AddDataMessage(_) => MessageKind::AddDataMessage,
        }
    }

    /// The canonical bytes of the message inside.
    pub open spec fn body(self) -> Seq<u8> {
        match self {
            PayloadView::PreliminaryGetDataRequest(m) => m.encode(),
            PayloadView::GetDataResponse(m) => m.encode(),
            PayloadView::GetUpdatedDataRequest(m) => m.encode(),
            PayloadView::AckMessage(m) => m.encode(),
            PayloadView::AddDataMessage(m) => m.encode(),
        }
    }

    /// The field that carries the payload: its number tells the kind.
    pub open spec fn field(self) -> WireField {
        bytes_field(self.kind().spec_field_number(), self.body())
    }

    /// The payload that a field carries, if its number is that of a kind
    /// and its bytes are a message of that kind.
    pub open spec fn from_field(f: WireField) -> Option<PayloadView> {
        if field_bytes(f, 2) is Some {
            match PreliminaryGetDataRequestView::parse(field_bytes(f, 2)->Some_0) {
                Some(m) => Some(PayloadView::PreliminaryGetDataRequest(m)),
                None => None,
            }
        } else if field_bytes(f, 3) is Some {
            match GetDataResponseView::parse(field_bytes(f, 3)->Some_0) {
                Some(m) => Some(PayloadView::GetDataResponse(m)),
                None => None,
            }
        } else if field_bytes(f, 4) is Some {
            match GetUpdatedDataRequestView::parse(field_bytes(f, 4)->Some_0) {
                Some(m) => Some(PayloadView::GetUpdatedDataRequest(m)),
                None => None,
            }
        } else if field_bytes(f, 5) is Some {
            match AckMessageView::parse(field_bytes(f, 5)->Some_0) {
                Some(m) => Some(PayloadView::AckMessage(m)),
                None => None,
            }
        } else if field_bytes(f, 6) is Some {
            match AddDataMessageView::parse(field_bytes(f, 6)->Some_0) {
                Some(m) => Some(PayloadView::AddDataMessage(m)),
                None => None,
            }
        } else {
            None
        }
    }

    /// Every length that the encoding states fits in 64 bits.
    pub open spec fn encodable(self) -> bool {
        &&& self.body().len() <= u64::MAX
        &&& match self {
            PayloadView::PreliminaryGetDataRequest(m) => m.encodable(),
            PayloadView::GetDataResponse(m) => m.encodable(),
            PayloadView::GetUpdatedDataRequest(m) => m.encodable(),
            PayloadView::AckMessage(m) => m.encodable(),
            PayloadView::AddDataMessage(m) => m.encodable(),
        }
    }

    /// Reading the field of a payload gives that payload back.
    pub proof fn lemma_roundtrip(self)
        requires
            self.encodable(),
        ensures
            Self::from_field(self.field()) == Some(self),
    {
        match self {
            PayloadView::PreliminaryGetDataRequest(m) => m.lemma_roundtrip(),
            PayloadView::GetDataResponse(m) => m.lemma_roundtrip(),
            PayloadView::GetUpdatedDataRequest(m) => m.lemma_roundtrip(),
            PayloadView::AckMessage(m) => m.lemma_roundtrip(),
            PayloadView::AddDataMessage(m) => m.lemma_roundtrip(),
        }
    }
}

impl Payload {
    /// The kind of the payload.
    pub fn kind(&self) -> (kind: MessageKind)
        ensures
            kind == self@.kind(),
    {
        match self {
            Payload::PreliminaryGetDataRequest(_) => MessageKind::PreliminaryGetDataRequest,
            Payload::GetDataResponse(_) => MessageKind::GetDataResponse,
            Payload::GetUpdatedDataRequest(_) => MessageKind::GetUpdatedDataRequest,
            Payload::AckMessage(_) => MessageKind::AckMessage,
            Payload::AddDataMessage(_) => MessageKind::AddDataMessage,
        }
    }

    /// The canonical bytes of the message inside.
    pub fn body_bytes(&self) -> (out: Vec<u8>)
        ensures
            out@ == self@.body(),
            self@.encodable(),
    {
        let out = match self {
            Payload::PreliminaryGetDataRequest(m) => m.to_bytes(),
            Payload::GetDataResponse(m) => m.to_bytes(),
            Payload::GetUpdatedDataRequest(m) => m.to_bytes(),
            Payload::AckMessage(m) => m.to_bytes(),
            Payload::AddDataMessage(m) => m.to_bytes(),
        };
        assert(out@.len() == out.len());
        out
    }

    /// A copy with the same content.
    pub fn duplicate(&self) -> (copy: Payload)
        ensures
            copy@ == self@,
    {
        match self {
            Payload::PreliminaryGetDataRequest(m) => Payload::PreliminaryGetDataRequest(
                m.duplicate(),
            ),
            Payload::GetDataResponse(m) => Payload::GetDataResponse(m.duplicate()),
            Payload::GetUpdatedDataRequest(m) => Payload::GetUpdatedDataRequest(m.duplicate()),
            Payload::AckMessage(m) => Payload::AckMessage(m.duplicate()),
            Payload::AddDataMessage(m) => Payload::AddDataMessage(m.duplicate()),
        }
    }
}

/// One message as it travels between two nodes.
#[derive(Clone, Debug, PartialEq, Eq)]
pub struct Envelope {
    pub protocol_version: String,
    pub payload: Payload,
}

/// What an [`Envelope`] holds.
pub ghost struct EnvelopeView {
    pub protocol_version: Seq<char>,
    pub payload: PayloadView,
}

impl View for Envelope {
    type V = EnvelopeView;

    open spec fn view(&self) -> EnvelopeView {
        EnvelopeView { protocol_version: self.protocol_version@, payload: self.payload@ }
    }
}

impl EnvelopeView {
    /// The two fields of an envelope: the version, then the payload.
    pub open spec fn record(self) -> Seq<WireField> {
        seq![text_field(1, self.protocol_version), self.payload.field()]
    }

    /// The envelope that a record holds, if it has exactly these fields.
    pub open spec fn from_record(fs: Seq<WireField>) -> Option<EnvelopeView> {
        if fs.len() == 2 && field_text(fs[0], 1) is Some && PayloadView::from_field(fs[1])
            is Some {
            Some(
                EnvelopeView {
                    protocol_version: field_text(fs[0], 1)->Some_0,
                    payload: PayloadView::from_field(fs[1])->Some_0,
                },
            )
        } else {
            None
        }
    }

    /// The canonical bytes of the envelope: the body of a frame.
    pub open spec fn encode(self) -> Seq<u8> {
        encode_fields(self.record())
    }

    /// The envelope that `bytes` hold, if they hold one.
    pub open spec fn parse(bytes: Seq<u8>) -> Option<EnvelopeView> {
        match parse_fields(bytes) {
            Some(fs) => Self::from_record(fs),
            None => None,
        }
    }

    /// Every length that the encoding states fits in 64 bits.
    pub open spec fn encodable(self) -> bool {
        &&& encode_utf8(self.protocol_version).len() <= u64::MAX
        &&& self.payload.encodable()
    }

    /// Parsing the bytes of an envelope gives that envelope back.
    pub proof fn lemma_roundtrip(self)
        requires
            self.encodable(),
        ensures
            Self::parse(self.encode()) == Some(self),
    {
        assert(fields_ok(self.record()));
        lemma_parse_encoded_fields(self.record());
        lemma_text_field(1, self.protocol_version);
        self.payload.lemma_roundtrip();
    }
}

impl Envelope {
    /// Writes the envelope in its canonical form.
    pub fn to_bytes(&self) -> (out: Vec<u8>)
        ensures
            out@ == self@.encode(),
            self@.encodable(),
    {
        let body = self.payload.body_bytes();
        let mut w = RecordWriter::new();
        w.put_text(1, self.protocol_version.as_str());
        w.put_bytes(self.payload.kind().field_number(), body.as_slice());
        assert(w.fields() =~= self@.record());
        w.finish()
    }

    /// Reads an envelope from bytes.
    pub fn from_bytes(bytes: &[u8]) -> (r: Option<Envelope>)
        ensures
            match EnvelopeView::parse(bytes@) {
                Some(m) => r is Some && r->Some_0@ == m,
                None => r is None,
            },
    {
        let fields = read_fields(bytes)?;
        if fields.len() != 2 {
            return None;
        }
        assert(forall|i: int| 0 <= i < 2 ==> fields.deep_view()[i] == fields@[i]@);
        let protocol_version = get_text(&fields[0], 1)?;
        let field = &fields[1];
        let payload = if let Some(body) = get_bytes(field, 2) {
            Payload::PreliminaryGetDataRequest(
                PreliminaryGetDataRequest::from_bytes(body.as_slice())?,
            )
        } else if let Some(body) = get_bytes(field, 3) {
            Payload::GetDataResponse(GetDataResponse::from_bytes(body.as_slice())?)
        } else if let Some(body) = get_bytes(field, 4) {
            Payload::GetUpdatedDataRequest(GetUpdatedDataRequest::from_bytes(body.as_slice())?)
        } else if let Some(body) = get_bytes(field, 5) {
            Payload::AckMessage(AckMessage::from_bytes(body.as_slice())?)
        } else if let Some(body) = get_bytes(field, 6) {
            Payload::AddDataMessage(AddDataMessage::from_bytes(body.as_slice())?)
        } else {
            return None;
        };
        Some(Envelope { protocol_version, payload })
    }

    /// A copy with the same content.
    pub fn duplicate(&self) -> (copy: Envelope)
        ensures
            copy@ == self@,
    {
        Envelope {
            protocol_version: self.protocol_version.clone(),
            payload: self.payload.duplicate(),
        }
    }
}

} // verus!
