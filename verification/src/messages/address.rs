//! The address under which a node can be reached.

use crate::codec::{
    field_i32, field_text, get_i32, get_text, i32_field, lemma_text_field, text_field, RecordWriter,
};
use crate::wire::{
    encode_fields, fields_ok, lemma_parse_encoded_fields, parse_fields, read_fields, WireField,
};
use vstd::prelude::*;
use vstd::utf8::encode_utf8;

verus! {

/// Host name and port of a node.
#[derive(Clone, Debug, PartialEq, Eq)]
pub struct NodeAddress {
    pub host_name: String,
    pub port: i32,
}

/// What a [`NodeAddress`] holds.
pub ghost struct NodeAddressView {
    pub host_name: Seq<char>,
    pub port: i32,
}

impl View for NodeAddress {
    type V = NodeAddressView;

    open spec fn view(&self) -> NodeAddressView {
        NodeAddressView {
            host_name: self.host_name@,
            port: self.port,
        }
    }
}

impl NodeAddressView {
    /// The fields of the address, in the order in which they are written.
    pub open spec fn record(self) -> Seq<WireField> {
        seq![
            text_field(1, self.host_name),
            i32_field(2, self.port),
        ]
    }

    /// The address that a record holds, if it has exactly these fields.
    pub open spec fn from_record(fs: Seq<WireField>) -> Option<NodeAddressView> {
        if fs.len() == 2
            && field_text(fs[0], 1) is Some
            && field_i32(fs[1], 2) is Some
        {
            Some(
                NodeAddressView {
                    host_name: field_text(fs[0], 1)->Some_0,
                    port: field_i32(fs[1], 2)->Some_0,
                },
            )
        } else {
            None
        }
    }

    /// The canonical bytes of the address.
    pub open spec fn encode(self) -> Seq<u8> {
        encode_fields(self.record())
    }

    /// The address that `bytes` hold, if they hold one.
    pub open spec fn parse(bytes: Seq<u8>) -> Option<NodeAddressView> {
        match parse_fields(bytes) {
            Some(fs) => Self::from_record(fs),
            None => None,
        }
    }

    /// Every length that the encoding states fits in 64 bits.
    pub open spec fn encodable(self) -> bool {
        &&& encode_utf8(self.host_name).len() <= u64::MAX
    }

    /// Parsing the bytes of a address gives that address back.
    pub proof fn lemma_roundtrip(self)
        requires
            self.encodable(),
        ensures
            Self::parse(self.encode()) == Some(self),
    {
        assert(fields_ok(self.record()));
        lemma_parse_encoded_fields(self.record());
        lemma_text_field(1, self.host_name);
    }
}

impl NodeAddress {
    /// Writes the address in its canonical form.
    pub fn to_bytes(&self) -> (out: Vec<u8>)
        ensures
            out@ == self@.encode(),
            self@.encodable(),
    {
        let mut w = RecordWriter::new();
        w.put_text(1, self.host_name.as_str());
        w.put_i32(2, self.port);
        assert(w.fields() =~= self@.record());
        w.finish()
    }

    /// Reads a address from bytes.
    pub fn from_bytes(bytes: &[u8]) -> (r: Option<NodeAddress>)
        ensures
            match NodeAddressView::parse(bytes@) {
                Some(m) => r is Some && r->Some_0@ == m,
                None => r is None,
            },
    {
        let fields = read_fields(bytes)?;
        if fields.len() != 2 {
            return None;
        }
        assert(forall|i: int| 0 <= i < 2 ==> fields.deep_view()[i] == fields@[i]@);
        let host_name = get_text(&fields[0], 1)?;
        let port = get_i32(&fields[1], 2)?;
        Some(NodeAddress {
            host_name,
            port,
        })
    }

    /// A copy with the same content.
    pub fn duplicate(&self) -> (copy: NodeAddress)
        ensures
            copy@ == self@,
    {
        NodeAddress {
            host_name: self.host_name.clone(),
            port: self.port,
        }
    }
}

} // verus!
