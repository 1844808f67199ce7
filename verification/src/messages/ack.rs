//! The acknowledgement a node sends for a message it has handled.

use crate::codec::{
    bool_field, field_bool, field_bytes, field_text, get_bool, get_bytes, get_text,
    lemma_text_field, text_field, RecordWriter,
};
use crate::messages::address::{NodeAddress, NodeAddressView};
use crate::wire::{
    bytes_field, encode_fields, field_ok, lemma_parse_encoded_fields, parse_fields, read_fields,
    WireField,
};
use vstd::prelude::*;
use vstd::utf8::encode_utf8;

verus! {

/// Says whether the message named by `source_uid` was handled, and if not,
/// why.
#[derive(Clone, Debug, PartialEq, Eq)]
pub struct AckMessage {
    pub uid: String,
    pub sender_node_address: NodeAddress,
    pub success: bool,
    pub source_type: String,
    pub source_msg_class_name: String,
    pub source_uid: String,
    pub source_id: String,
    pub error_message: String,
    pub updated_multisig_hex: String,
}

/// What a [`AckMessage`] holds.
pub ghost struct AckMessageView {
    pub uid: Seq<char>,
    pub sender_node_address: NodeAddressView,
    pub success: bool,
    pub source_type: Seq<char>,
    pub source_msg_class_name: Seq<char>,
    pub source_uid: Seq<char>,
    pub source_id: Seq<char>,
    pub error_message: Seq<char>,
    pub updated_multisig_hex: Seq<char>,
}

impl View for AckMessage {
    type V = AckMessageView;

    open spec fn view(&self) -> AckMessageView {
        AckMessageView {
            uid: self.uid@,
            sender_node_address: self.sender_node_address@,
            success: self.success,
            source_type: self.source_type@,
            source_msg_class_name: self.source_msg_class_name@,
            source_uid: self.source_uid@,
            source_id: self.source_id@,
            error_message: self.error_message@,
            updated_multisig_hex: self.updated_multisig_hex@,
        }
    }
}

impl AckMessageView {
    /// Field number `i + 1` of the acknowledgement.
    pub open spec fn field_at(self, i: int) -> WireField {
        if i == 0 {
            text_field(1, self.uid)
        } else if i == 1 {
            bytes_field(2, self.sender_node_address.encode())
        } else if i == 2 {
            bool_field(3, self.success)
        } else if i == 3 {
            text_field(4, self.source_type)
        } else if i == 4 {
            text_field(5, self.source_msg_class_name)
        } else if i == 5 {
            text_field(6, self.source_uid)
        } else if i == 6 {
            text_field(7, self.source_id)
        } else if i == 7 {
            text_field(8, self.error_message)
        } else {
            text_field(9, self.updated_multisig_hex)
        }
    }

    /// The fields of the acknowledgement, in the order in which they are written.
    pub open spec fn record(self) -> Seq<WireField> {
        Seq::new(9, |i: int| self.field_at(i))
    }

    /// The acknowledgement that a record holds, if it has exactly these fields.
    pub open spec fn from_record(fs: Seq<WireField>) -> Option<AckMessageView> {
        if fs.len() == 9
            && field_text(fs[0], 1) is Some
            && field_bytes(fs[1], 2) is Some
            && NodeAddressView::parse(field_bytes(fs[1], 2)->Some_0) is Some
            && field_bool(fs[2], 3) is Some
            && field_text(fs[3], 4) is Some
            && field_text(fs[4], 5) is Some
            && field_text(fs[5], 6) is Some
            && field_text(fs[6], 7) is Some
            && field_text(fs[7], 8) is Some
            && field_text(fs[8], 9) is Some
        {
            Some(
                AckMessageView {
                    uid: field_text(fs[0], 1)->Some_0,
                    sender_node_address: NodeAddressView::parse(field_bytes(fs[1], 2)->Some_0)->Some_0,
                    success: field_bool(fs[2], 3)->Some_0,
                    source_type: field_text(fs[3], 4)->Some_0,
                    source_msg_class_name: field_text(fs[4], 5)->Some_0,
                    source_uid: field_text(fs[5], 6)->Some_0,
                    source_id: field_text(fs[6], 7)->Some_0,
                    error_message: field_text(fs[7], 8)->Some_0,
                    updated_multisig_hex: field_text(fs[8], 9)->Some_0,
                },
            )
        } else {
            None
        }
    }

    /// The canonical bytes of the acknowledgement.
    pub open spec fn encode(self) -> Seq<u8> {
        encode_fields(self.record())
    }

    /// The acknowledgement that `bytes` hold, if they hold one.
    pub open spec fn parse(bytes: Seq<u8>) -> Option<AckMessageView> {
        match parse_fields(bytes) {
            Some(fs) => Self::from_record(fs),
            None => None,
        }
    }

    /// Every length that the encoding states fits in 64 bits.
    pub open spec fn encodable(self) -> bool {
        &&& encode_utf8(self.uid).len() <= u64::MAX
        &&& self.sender_node_address.encodable()
        &&& self.sender_node_address.encode().len() <= u64::MAX
        &&& encode_utf8(self.source_type).len() <= u64::MAX
        &&& encode_utf8(self.source_msg_class_name).len() <= u64::MAX
        &&& encode_utf8(self.source_uid).len() <= u64::MAX
        &&& encode_utf8(self.source_id).len() <= u64::MAX
        &&& encode_utf8(self.error_message).len() <= u64::MAX
        &&& encode_utf8(self.updated_multisig_hex).len() <= u64::MAX
    }

    /// Parsing the bytes of a acknowledgement gives that acknowledgement back.
    pub proof fn lemma_roundtrip(self)
        requires
            self.encodable(),
        ensures
            Self::parse(self.encode()) == Some(self),
    {
        let fs = self.record();
        assert forall|i: int| 0 <= i < 9 implies field_ok(#[trigger] fs[i]) by {
            assert(fs[i] == self.field_at(i));
        }
        lemma_parse_encoded_fields(fs);
        assert(Self::from_record(fs) == Some(self)) by {
            assert(fs[0] == self.field_at(0));
            assert(fs[1] == self.field_at(1));
            assert(fs[2] == self.field_at(2));
            assert(fs[3] == self.field_at(3));
            assert(fs[4] == self.field_at(4));
            assert(fs[5] == self.field_at(5));
            assert(fs[6] == self.field_at(6));
            assert(fs[7] == self.field_at(7));
            assert(fs[8] == self.field_at(8));
            lemma_text_field(1, self.uid);
            self.sender_node_address.lemma_roundtrip();
            lemma_text_field(4, self.source_type);
            lemma_text_field(5, self.source_msg_class_name);
            lemma_text_field(6, self.source_uid);
            lemma_text_field(7, self.source_id);
            lemma_text_field(8, self.error_message);
            lemma_text_field(9, self.updated_multisig_hex);
        }
    }
}

impl AckMessage {
    /// Writes the acknowledgement in its canonical form.
    pub fn to_bytes(&self) -> (out: Vec<u8>)
        ensures
            out@ == self@.encode(),
            self@.encodable(),
    {
        let sender_node_address = self.sender_node_address.to_bytes();
        let mut w = RecordWriter::new();
        w.put_text(1, self.uid.as_str());
        assert(w.fields() =~= self@.record().take(1));
        w.put_bytes(2, sender_node_address.as_slice());
        assert(w.fields() =~= self@.record().take(2));
        w.put_bool(3, self.success);
        assert(w.fields() =~= self@.record().take(3));
        w.put_text(4, self.source_type.as_str());
        assert(w.fields() =~= self@.record().take(4));
        w.put_text(5, self.source_msg_class_name.as_str());
        assert(w.fields() =~= self@.record().take(5));
        w.put_text(6, self.source_uid.as_str());
        assert(w.fields() =~= self@.record().take(6));
        w.put_text(7, self.source_id.as_str());
        assert(w.fields() =~= self@.record().take(7));
        w.put_text(8, self.error_message.as_str());
        assert(w.fields() =~= self@.record().take(8));
        w.put_text(9, self.updated_multisig_hex.as_str());
        assert(w.fields() =~= self@.record());
        w.finish()
    }

    /// Reads a acknowledgement from bytes.
    pub fn from_bytes(bytes: &[u8]) -> (r: Option<AckMessage>)
        ensures
            match AckMessageView::parse(bytes@) {
                Some(m) => r is Some && r->Some_0@ == m,
                None => r is None,
            },
    {
        let fields = read_fields(bytes)?;
        if fields.len() != 9 {
            return None;
        }
        assert(forall|i: int| 0 <= i < 9 ==> fields.deep_view()[i] == fields@[i]@);
        let uid = get_text(&fields[0], 1)?;
        let sender_node_address = NodeAddress::from_bytes(get_bytes(&fields[1], 2)?.as_slice())?;
        let success = get_bool(&fields[2], 3)?;
        let source_type = get_text(&fields[3], 4)?;
        let source_msg_class_name = get_text(&fields[4], 5)?;
        let source_uid = get_text(&fields[5], 6)?;
        let source_id = get_text(&fields[6], 7)?;
        let error_message = get_text(&fields[7], 8)?;
        let updated_multisig_hex = get_text(&fields[8], 9)?;
        Some(AckMessage {
            uid,
            sender_node_address,
            success,
            source_type,
            source_msg_class_name,
            source_uid,
            source_id,
            error_message,
            updated_multisig_hex,
        })
    }

    /// A copy with the same content.
    pub fn duplicate(&self) -> (copy: AckMessage)
        ensures
            copy@ == self@,
    {
        AckMessage {
            uid: self.uid.clone(),
            sender_node_address: self.sender_node_address.duplicate(),
            success: self.success,
            source_type: self.source_type.clone(),
            source_msg_class_name: self.source_msg_class_name.clone(),
            source_uid: self.source_uid.clone(),
            source_id: self.source_id.clone(),
            error_message: self.error_message.clone(),
            updated_multisig_hex: self.updated_multisig_hex.clone(),
        }
    }
}

} // verus!
