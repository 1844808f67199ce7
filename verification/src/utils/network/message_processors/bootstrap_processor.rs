//! Turning the answer of a seed into the records that are kept of it: one
//! JSON file for every witness and every trade statistic, named by the
//! item's place in the answer and its kind.

use crate::messages::envelope::{Envelope, EnvelopeView, Payload, PayloadView};
use crate::messages::response::GetDataResponse;
use crate::messages::storage::{StoragePayload, StoragePayloadView};
use crate::utils::encoding::{base64_encode, spec_base64, MAX_ENCODE_INPUT};
use crate::utils::text::{decimal, json_object, spec_decimal, spec_json_object};
use vstd::prelude::*;
use vstd::string::StringExecFns;

verus! {

/// One file to write below the processor's directory.
#[derive(Clone, Debug, PartialEq, Eq)]
pub struct StoredItem {
    pub file_name: String,
    pub contents: String,
}

/// What a [`StoredItem`] holds.
pub ghost struct StoredItemView {
    pub file_name: Seq<char>,
    pub contents: Seq<char>,
}

impl View for StoredItem {
    type V = StoredItemView;

    open spec fn view(&self) -> StoredItemView {
        StoredItemView { file_name: self.file_name@, contents: self.contents@ }
    }
}

/// The records that a vector of records holds.
pub open spec fn stored_view(items: Seq<StoredItem>) -> Seq<StoredItemView> {
    Seq::new(items.len(), |i: int| items[i]@)
}

/// The directory, below the processor's own, that takes the records of an
/// answer.
pub open spec fn response_directory() -> Seq<char> {
    "seednode/get_data_response"@
}

/// The kind of a payload that is kept, by name, and the bytes that are
/// kept of it. Filters are not kept.
pub open spec fn kept(payload: StoragePayloadView) -> Option<(Seq<char>, Seq<u8>)> {
    match payload {
        StoragePayloadView::AccountAgeWitness(b) => Some(("AccountAgeWitness"@, b)),
        StoragePayloadView::SignedWitness(b) => Some(("SignedWitness"@, b)),
        StoragePayloadView::TradeStatistics3(b) => Some(("TradeStatistics3"@, b)),
        StoragePayloadView::Filter(_) => None,
    }
}

/// The record of the payload at place `index` of an answer, if the
/// payload is of a kind that is kept and not too large to be written as
/// text.
pub open spec fn record_of(payload: StoragePayloadView, index: nat) -> Option<StoredItemView> {
    match kept(payload) {
        Some((kind, bytes)) => if bytes.len() <= MAX_ENCODE_INPUT {
            Some(
                StoredItemView {
                    file_name: spec_decimal(index) + "_"@ + kind + ".json"@,
                    contents: spec_json_object("type"@, kind, "encoded"@, spec_base64(bytes)),
                },
            )
        } else {
            None
        },
        None => None,
    }
}

/// The records of the first `count` payloads of an answer, in order.
pub open spec fn records_of(items: Seq<StoragePayloadView>, count: nat) -> Seq<StoredItemView>
    decreases count,
{
    if count == 0 {
        Seq::empty()
    } else {
        let before = records_of(items, (count - 1) as nat);
        match record_of(items[count - 1], (count - 1) as nat) {
            Some(record) => before.push(record),
            None => before,
        }
    }
}

/// Whether a payload is of a kind that is kept but too large to be
/// written as text in one piece.
pub open spec fn too_large(payload: StoragePayloadView) -> bool {
    kept(payload) matches Some((_, bytes)) && bytes.len() > MAX_ENCODE_INPUT
}

/// The places, among the first `count` payloads of an answer, of those
/// that are too large to be kept, in order.
pub open spec fn too_large_among(items: Seq<StoragePayloadView>, count: nat) -> Seq<usize>
    decreases count,
{
    if count == 0 {
        Seq::empty()
    } else {
        let before = too_large_among(items, (count - 1) as nat);
        if too_large(items[count - 1]) {
            before.push((count - 1) as usize)
        } else {
            before
        }
    }
}

/// The places of the payloads of an envelope that are left out of its
/// records for their size.
pub open spec fn spec_left_out(envelope: EnvelopeView) -> Seq<usize> {
    match envelope.payload {
        PayloadView::GetDataResponse(response) => too_large_among(
            response.items,
            response.items.len(),
        ),
        _ => Seq::empty(),
    }
}

/// The records that are kept of an envelope: those of its payloads if it
/// is an answer to a request for data, none otherwise.
pub open spec fn spec_process(envelope: EnvelopeView) -> Seq<StoredItemView> {
    match envelope.payload {
        PayloadView::GetDataResponse(response) => records_of(response.items, response.items.len()),
        _ => Seq::empty(),
    }
}

/// Keeps what a bootstrap receives below a directory of its own.
#[derive(Clone, Debug, PartialEq, Eq)]
pub struct MessageProcessor {
    base_dir: String,
}

impl MessageProcessor {
    /// The directory below which the records go.
    pub closed spec fn spec_base_dir(&self) -> Seq<char> {
        self.base_dir@
    }

    /// A processor that keeps its records below `base_dir`.
    pub fn new(base_dir: &str) -> (processor: MessageProcessor)
        ensures
            processor.spec_base_dir() == base_dir@,
    {
        MessageProcessor { base_dir: base_dir.to_owned() }
    }

    /// The directory below which the records go.
    pub fn base_dir(&self) -> (dir: &str)
        ensures
            dir@ == self.spec_base_dir(),
    {
        self.base_dir.as_str()
    }

    /// The directory, below `base_dir`, that takes the records of an
    /// answer.
    pub fn response_dir(&self) -> (dir: &'static str)
        ensures
            dir@ == response_directory(),
    {
        "seednode/get_data_response"
    }

    /// The places of the payloads of an envelope that `process` leaves
    /// out because they are too large to be written as text in one piece,
    /// so that whoever keeps the records can report them.
    pub fn left_out(&self, envelope: &Envelope) -> (places: Vec<usize>)
        ensures
            places@ == spec_left_out(envelope@),
    {
        let mut places: Vec<usize> = Vec::new();
        if let Payload::GetDataResponse(response) = &envelope.payload {
            let mut i: usize = 0;
            while i < response.items.len()
                invariant
                    i <= response.items@.len(),
                    response@.items.len() == response.items@.len(),
                    places@ == too_large_among(response@.items, i as nat),
                decreases response.items@.len() - i,
            {
                assert(response@.items[i as int] == response.items@[i as int]@);
                let large = match &response.items[i] {
                    StoragePayload::AccountAgeWitness(b) => b.len() > MAX_ENCODE_INPUT,
                    StoragePayload::SignedWitness(b) => b.len() > MAX_ENCODE_INPUT,
                    StoragePayload::TradeStatistics3(b) => b.len() > MAX_ENCODE_INPUT,
                    StoragePayload::Filter(_) => false,
                };
                if large {
                    places.push(i);
                }
                i += 1;
            }
        }
        places
    }

    /// The records to write for an envelope. A payload that is too large
    /// to be written as text in one piece has no record; `left_out` names
    /// it.
    pub fn process(&self, envelope: &Envelope) -> (records: Vec<StoredItem>)
        ensures
            stored_view(records@) == spec_process(envelope@),
    {
        match &envelope.payload {
            Payload::GetDataResponse(response) => self.handle_get_data_response(response),
            _ => {
                let none: Vec<StoredItem> = Vec::new();
                assert(stored_view(none@) =~= Seq::<StoredItemView>::empty());
                none
            },
        }
    }

    fn record(payload: &StoragePayload, index: usize) -> (record: Option<StoredItem>)
        ensures
            match record_of(payload@, index as nat) {
                Some(r) => record is Some && record->Some_0@ == r,
                None => record is None,
            },
    {
        let (kind, bytes) = match payload {
            StoragePayload::AccountAgeWitness(b) => ("AccountAgeWitness", b),
            StoragePayload::SignedWitness(b) => ("SignedWitness", b),
            StoragePayload::TradeStatistics3(b) => ("TradeStatistics3", b),
            StoragePayload::Filter(_) => {
                return None;
            },
        };
        if bytes.len() > MAX_ENCODE_INPUT {
            return None;
        }
        let encoded = base64_encode(bytes.as_slice());
        let contents = match json_object("type", kind, "encoded", encoded.as_str()) {
            Some(contents) => contents,
            None => vstd::pervasive::unreached(),
        };
        let mut file_name = decimal(index);
        file_name.append("_");
        file_name.append(kind);
        file_name.append(".json");
        Some(StoredItem { file_name, contents })
    }

    fn handle_get_data_response(&self, resp: &GetDataResponse) -> (records: Vec<StoredItem>)
        ensures
            stored_view(records@) == records_of(resp@.items, resp@.items.len()),
    {
        let mut records: Vec<StoredItem> = Vec::new();
        let mut i: usize = 0;
        assert(stored_view(records@) =~= records_of(resp@.items, 0));
        while i < resp.items.len()
            invariant
                i <= resp.items@.len(),
                resp@.items.len() == resp.items@.len(),
                stored_view(records@) == records_of(resp@.items, i as nat),
            decreases resp.items@.len() - i,
        {
            let ghost before = stored_view(records@);
            assert(resp@.items[i as int] == resp.items@[i as int]@);
            match Self::record(&resp.items[i], i) {
                Some(record) => {
                    let ghost r = record@;
                    records.push(record);
                    assert(stored_view(records@) =~= before.push(r));
                },
                None => {},
            }
            i += 1;
        }
        records
    }
}

} // verus!
