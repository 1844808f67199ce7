use haveno_basic_bootstrap::codec::{
    read_int_list, read_list, read_text_list, write_int_list, write_list, write_text_list,
};
use haveno_basic_bootstrap::messages::ack::AckMessage;
use haveno_basic_bootstrap::messages::address::NodeAddress;
use haveno_basic_bootstrap::messages::envelope::{Envelope, MessageKind, Payload};
use haveno_basic_bootstrap::messages::requests::{GetUpdatedDataRequest, PreliminaryGetDataRequest};
use haveno_basic_bootstrap::messages::response::GetDataResponse;
use haveno_basic_bootstrap::messages::storage::{
    AddDataMessage, ProtectedStorageEntry, StorageEntryWrapper, StoragePayload,
};
use haveno_basic_bootstrap::varint::{decode_varint, encode_varint};
use haveno_basic_bootstrap::wire::{read_fields, write_fields, Field, FieldValue};
use haveno_basic_bootstrap::builders::filter::build_filter_at;

fn varint_of(value: u64) -> Vec<u8> {
    let mut out = Vec::new();
    encode_varint(value, &mut out);
    out
}

#[test]
fn varint_encodes_small_and_large_values() {
    assert_eq!(varint_of(0), vec![0x00]);
    assert_eq!(varint_of(1), vec![0x01]);
    assert_eq!(varint_of(127), vec![0x7f]);
    assert_eq!(varint_of(128), vec![0x80, 0x01]);
    assert_eq!(varint_of(300), vec![0xac, 0x02]);
    assert_eq!(varint_of(16384), vec![0x80, 0x80, 0x01]);
    assert_eq!(
        varint_of(u64::MAX),
        vec![0xff, 0xff, 0xff, 0xff, 0xff, 0xff, 0xff, 0xff, 0xff, 0x01]
    );
}

#[test]
fn varint_appends_to_what_is_there() {
    let mut out = vec![9u8, 9];
    encode_varint(300, &mut out);
    assert_eq!(out, vec![9, 9, 0xac, 0x02]);
}

#[test]
fn varint_decodes_at_a_position() {
    let bytes = [0xffu8, 0xac, 0x02, 0x05];
    assert_eq!(decode_varint(&bytes, 1), Some((300, 3)));
    assert_eq!(decode_varint(&bytes, 3), Some((5, 4)));
    assert_eq!(decode_varint(&bytes, 4), None);
}

#[test]
fn varint_round_trips() {
    for value in [0u64, 1, 127, 128, 255, 256, 65535, 1 << 32, (1 << 63) - 1, 1 << 63, u64::MAX] {
        let bytes = varint_of(value);
        assert_eq!(decode_varint(&bytes, 0), Some((value, bytes.len())));
    }
}

#[test]
fn varint_rejects_open_and_overlong_prefixes() {
    assert_eq!(decode_varint(&[], 0), None);
    assert_eq!(decode_varint(&[0x80], 0), None);
    assert_eq!(decode_varint(&[0x80, 0x80, 0x80], 0), None);
    // ten bytes whose tenth exceeds what 64 bits hold
    let overflow = [0xffu8, 0xff, 0xff, 0xff, 0xff, 0xff, 0xff, 0xff, 0xff, 0x02];
    assert_eq!(decode_varint(&overflow, 0), None);
    // eleven continuation bytes
    let long = [0x80u8; 11];
    assert_eq!(decode_varint(&long, 0), None);
}

#[test]
fn varint_accepts_padded_zero() {
    assert_eq!(decode_varint(&[0x80, 0x00], 0), Some((0, 2)));
}

#[test]
fn fields_have_the_expected_bytes() {
    let fields = vec![Field::varint(1, 150), Field::bytes(2, b"hi".to_vec())];
    let bytes = write_fields(&fields);
    assert_eq!(bytes, vec![0x08, 0x96, 0x01, 0x12, 0x02, b'h', b'i']);
    assert_eq!(read_fields(&bytes), Some(fields));
}

#[test]
fn empty_record_is_empty() {
    assert_eq!(write_fields(&Vec::new()), Vec::<u8>::new());
    assert_eq!(read_fields(&[]), Some(Vec::new()));
}

#[test]
fn fields_reject_bad_keys_and_short_bodies() {
    // wire type 1 is not used
    assert_eq!(read_fields(&[0x09, 0x00]), None);
    // field number 0
    assert_eq!(read_fields(&[0x00, 0x00]), None);
    // length 3 but only two bytes follow
    assert_eq!(read_fields(&[0x12, 0x03, 1, 2]), None);
    // key without value
    assert_eq!(read_fields(&[0x08]), None);
}

#[test]
fn field_values_are_told_apart() {
    let fields = read_fields(&[0x08, 0x05, 0x0a, 0x01, 0x07]).unwrap();
    assert_eq!(fields.len(), 2);
    assert_eq!(fields[0].number, 1);
    assert_eq!(fields[0].value, FieldValue::Varint(5));
    assert_eq!(fields[1].number, 1);
    assert_eq!(fields[1].value, FieldValue::Bytes(vec![7]));
}

#[test]
fn lists_round_trip() {
    let items = vec![vec![1u8, 2, 3], vec![], vec![0xff]];
    let bytes = write_list(&items);
    assert_eq!(bytes, vec![0x0a, 3, 1, 2, 3, 0x0a, 0, 0x0a, 1, 0xff]);
    assert_eq!(read_list(&bytes), Some(items));

    let numbers = vec![11, 14, 16, -1, i32::MIN, i32::MAX];
    let bytes = write_int_list(&numbers);
    assert_eq!(&bytes[..6], &[0x08, 11, 0x08, 14, 0x08, 16]);
    assert_eq!(read_int_list(&bytes), Some(numbers));

    let texts = vec!["a".to_string(), "".to_string(), "héllo".to_string()];
    let bytes = write_text_list(&texts);
    assert_eq!(read_text_list(&bytes), Some(texts));
}

#[test]
fn lists_reject_what_is_no_list() {
    // field number 2 in a list
    assert_eq!(read_list(&[0x12, 0x00]), None);
    // a varint where bytes are expected
    assert_eq!(read_list(&[0x08, 0x01]), None);
    // bytes where a number is expected
    assert_eq!(read_int_list(&[0x0a, 0x00]), None);
    // a number that does not fit 32 bits
    let mut wide = vec![0x08];
    encode_varint(1 << 40, &mut wide);
    assert_eq!(read_int_list(&wide), None);
    // invalid UTF-8
    assert_eq!(read_text_list(&[0x0a, 0x01, 0xff]), None);
}

#[test]
fn node_address_has_the_expected_bytes() {
    let address = NodeAddress { host_name: "a".to_string(), port: 1 };
    let bytes = address.to_bytes();
    assert_eq!(bytes, vec![0x0a, 0x01, b'a', 0x10, 0x01]);
    assert_eq!(NodeAddress::from_bytes(&bytes), Some(address));
}

#[test]
fn negative_numbers_take_ten_bytes() {
    let address = NodeAddress { host_name: String::new(), port: -1 };
    let bytes = address.to_bytes();
    assert_eq!(
        bytes,
        vec![0x0a, 0x00, 0x10, 0xff, 0xff, 0xff, 0xff, 0xff, 0xff, 0xff, 0xff, 0xff, 0x01]
    );
    assert_eq!(NodeAddress::from_bytes(&bytes), Some(address));
}

#[test]
fn node_address_rejects_missing_swapped_and_extra_fields() {
    assert_eq!(NodeAddress::from_bytes(&[]), None);
    assert_eq!(NodeAddress::from_bytes(&[0x0a, 0x01, b'a']), None);
    assert_eq!(NodeAddress::from_bytes(&[0x10, 0x01, 0x0a, 0x01, b'a']), None);
    assert_eq!(NodeAddress::from_bytes(&[0x0a, 0x01, b'a', 0x10, 0x01, 0x18, 0x00]), None);
    // host name that is not UTF-8
    assert_eq!(NodeAddress::from_bytes(&[0x0a, 0x01, 0xff, 0x10, 0x01]), None);
}

fn sample_request() -> PreliminaryGetDataRequest {
    PreliminaryGetDataRequest {
        nonce: 4232,
        excluded_keys: vec![],
        version: "1.1.2".to_string(),
        supported_capabilities: vec![11, 14, 16],
    }
}

fn sample_entry() -> ProtectedStorageEntry {
    ProtectedStorageEntry {
        storage_payload: StoragePayload::Filter(build_filter_at(1_700_000_000)),
        owner_pub_key_bytes: vec![2; 33],
        sequence_number: 7,
        signature: vec![0x30, 0x06, 0x02, 0x01, 0x01, 0x02, 0x01, 0x01],
        creation_time_stamp: -5,
    }
}

fn sample_envelopes() -> Vec<Envelope> {
    let address = NodeAddress { host_name: "abc.onion".to_string(), port: 2001 };
    let mut filter = build_filter_at(12);
    filter.banned_currencies = vec!["XYZ".to_string(), "ÄÖ".to_string()];
    filter.seed_nodes = vec!["seed.onion:2001".to_string()];
    filter.disable_api = true;
    filter.signature_as_base64 = "c2ln".to_string();
    filter.owner_pub_key_bytes = vec![3, 1, 4];
    vec![
        Envelope {
            protocol_version: "0X".to_string(),
            payload: Payload::PreliminaryGetDataRequest(sample_request()),
        },
        Envelope {
            protocol_version: "".to_string(),
            payload: Payload::GetDataResponse(GetDataResponse {
                request_nonce: -4232,
                supported_capabilities: vec![],
                items: vec![
                    StoragePayload::AccountAgeWitness(vec![1, 2, 3]),
                    StoragePayload::Filter(filter),
                    StoragePayload::SignedWitness(vec![]),
                    StoragePayload::TradeStatistics3(vec![0; 300]),
                ],
            }),
        },
        Envelope {
            protocol_version: "1".to_string(),
            payload: Payload::GetUpdatedDataRequest(GetUpdatedDataRequest {
                sender_node_address: address.clone(),
                nonce: 3424,
                excluded_keys: vec![vec![1; 20], vec![2; 20]],
                version: "1.1.2".to_string(),
            }),
        },
        Envelope {
            protocol_version: "0X".to_string(),
            payload: Payload::AckMessage(AckMessage {
                uid: "6f1a".to_string(),
                sender_node_address: address,
                success: true,
                source_type: "t".to_string(),
                source_msg_class_name: "c".to_string(),
                source_uid: "u".to_string(),
                source_id: "i".to_string(),
                error_message: "".to_string(),
                updated_multisig_hex: "00ff".to_string(),
            }),
        },
        Envelope {
            protocol_version: "0X".to_string(),
            payload: Payload::AddDataMessage(AddDataMessage {
                entry: StorageEntryWrapper::ProtectedStorageEntry(sample_entry()),
            }),
        },
    ]
}

#[test]
fn every_kind_of_envelope_round_trips() {
    for envelope in sample_envelopes() {
        let bytes = envelope.to_bytes();
        assert_eq!(Envelope::from_bytes(&bytes), Some(envelope));
    }
}

#[test]
fn envelope_has_the_expected_bytes() {
    let envelope = Envelope {
        protocol_version: "0X".to_string(),
        payload: Payload::PreliminaryGetDataRequest(sample_request()),
    };
    let expected: Vec<u8> = vec![
        0x0a, 0x02, b'0', b'X', // version
        0x12, 0x14, // the request, 20 bytes
        0x08, 0x88, 0x21, // nonce 4232
        0x12, 0x00, // no excluded keys
        0x1a, 0x05, b'1', b'.', b'1', b'.', b'2', // version
        0x22, 0x06, 0x08, 11, 0x08, 14, 0x08, 16, // capabilities
    ];
    assert_eq!(envelope.to_bytes(), expected);
}

#[test]
fn envelope_rejects_unknown_payload_number_and_trailing_bytes() {
    let envelope = &sample_envelopes()[0];
    let mut bytes = envelope.to_bytes();
    bytes.push(0);
    assert_eq!(Envelope::from_bytes(&bytes), None);

    // payload under field number 7, which is no kind
    assert_eq!(Envelope::from_bytes(&[0x0a, 0x00, 0x3a, 0x00]), None);
    // payload bytes that are no request
    assert_eq!(Envelope::from_bytes(&[0x0a, 0x00, 0x12, 0x01, 0x00]), None);
    assert_eq!(Envelope::from_bytes(&[]), None);
}

#[test]
fn kinds_have_their_names_and_numbers() {
    let kinds = [
        (MessageKind::PreliminaryGetDataRequest, "PreliminaryGetDataRequest", 2),
        (MessageKind::GetDataResponse, "GetDataResponse", 3),
        (MessageKind::GetUpdatedDataRequest, "GetUpdatedDataRequest", 4),
        (MessageKind::AckMessage, "AckMessage", 5),
        (MessageKind::AddDataMessage, "AddDataMessage", 6),
    ];
    for (kind, name, number) in kinds {
        assert_eq!(kind.name(), name);
        assert_eq!(kind.field_number(), number);
    }
    for (envelope, (kind, _, _)) in sample_envelopes().iter().zip(kinds) {
        assert_eq!(envelope.payload.kind(), kind);
    }
}

#[test]
fn duplicates_are_equal() {
    for envelope in sample_envelopes() {
        assert_eq!(envelope.duplicate(), envelope);
    }
}

#[test]
fn storage_payload_kinds_are_told_apart() {
    let witness = StoragePayload::AccountAgeWitness(vec![9]);
    assert_eq!(witness.to_bytes(), vec![0x12, 0x01, 9]);
    let signed = StoragePayload::SignedWitness(vec![9]);
    assert_eq!(signed.to_bytes(), vec![0x1a, 0x01, 9]);
    let stats = StoragePayload::TradeStatistics3(vec![9]);
    assert_eq!(stats.to_bytes(), vec![0x22, 0x01, 9]);
    assert_eq!(StoragePayload::from_bytes(&[0x12, 0x01, 9]), Some(witness));
    assert_eq!(StoragePayload::from_bytes(&[0x2a, 0x01, 9]), None);
}

#[test]
fn entry_rejects_sequence_number_beyond_32_bits() {
    let entry = sample_entry();
    let bytes = entry.to_bytes();
    assert_eq!(ProtectedStorageEntry::from_bytes(&bytes), Some(entry));
    // replace the sequence number field (0x18, 7) by one of 2^32
    let at = bytes.windows(2).rposition(|w| w == [0x18, 0x07]).unwrap();
    let mut wide = bytes[..at].to_vec();
    wide.push(0x18);
    encode_varint(1 << 32, &mut wide);
    wide.extend_from_slice(&bytes[at + 2..]);
    assert_eq!(ProtectedStorageEntry::from_bytes(&wide), None);
}
