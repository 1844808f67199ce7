use haveno_basic_bootstrap::builders::filter::build_filter_at;
use haveno_basic_bootstrap::messages::envelope::Payload;
use haveno_basic_bootstrap::messages::requests::PreliminaryGetDataRequest;
use haveno_basic_bootstrap::messages::response::GetDataResponse;
use haveno_basic_bootstrap::messages::storage::StoragePayload;
use haveno_basic_bootstrap::utils::network::envelope::build_envelope;
use haveno_basic_bootstrap::utils::network::message_processors::bootstrap_processor::{
    MessageProcessor, StoredItem,
};

fn item(name: &str, contents: &str) -> StoredItem {
    StoredItem { file_name: name.to_string(), contents: contents.to_string() }
}

#[test]
fn witnesses_and_statistics_are_kept_by_place_and_kind() {
    let processor = MessageProcessor::new("data");
    assert_eq!(processor.base_dir(), "data");
    assert_eq!(processor.response_dir(), "seednode/get_data_response");
    let envelope = build_envelope(Payload::GetDataResponse(GetDataResponse {
        request_nonce: 1,
        supported_capabilities: vec![],
        items: vec![
            StoragePayload::AccountAgeWitness(vec![1, 2, 3]),
            StoragePayload::Filter(build_filter_at(1)),
            StoragePayload::SignedWitness(vec![]),
            StoragePayload::TradeStatistics3(vec![0xff, 0xfe]),
        ],
    }));
    let records = processor.process(&envelope);
    assert_eq!(
        records,
        vec![
            item(
                "0_AccountAgeWitness.json",
                "{\n  \"encoded\": \"AQID\",\n  \"type\": \"AccountAgeWitness\"\n}"
            ),
            item(
                "2_SignedWitness.json",
                "{\n  \"encoded\": \"\",\n  \"type\": \"SignedWitness\"\n}"
            ),
            item(
                "3_TradeStatistics3.json",
                "{\n  \"encoded\": \"//4=\",\n  \"type\": \"TradeStatistics3\"\n}"
            ),
        ]
    );
}

#[test]
fn place_is_written_in_decimal() {
    let processor = MessageProcessor::new("");
    let mut items: Vec<StoragePayload> =
        (0..12).map(|_| StoragePayload::Filter(build_filter_at(0))).collect();
    items.push(StoragePayload::SignedWitness(vec![9]));
    let envelope = build_envelope(Payload::GetDataResponse(GetDataResponse {
        request_nonce: 1,
        supported_capabilities: vec![],
        items,
    }));
    let records = processor.process(&envelope);
    assert_eq!(records.len(), 1);
    assert_eq!(records[0].file_name, "12_SignedWitness.json");
}

#[test]
fn other_envelopes_and_empty_answers_leave_nothing() {
    let processor = MessageProcessor::new("data");
    let request = build_envelope(Payload::PreliminaryGetDataRequest(PreliminaryGetDataRequest {
        nonce: 1,
        excluded_keys: vec![],
        version: String::new(),
        supported_capabilities: vec![],
    }));
    assert!(processor.process(&request).is_empty());
    let empty = build_envelope(Payload::GetDataResponse(GetDataResponse {
        request_nonce: 1,
        supported_capabilities: vec![],
        items: vec![],
    }));
    assert!(processor.process(&empty).is_empty());
}

#[test]
fn nothing_is_left_out_of_an_ordinary_answer() {
    let processor = MessageProcessor::new("data");
    let envelope = build_envelope(Payload::GetDataResponse(GetDataResponse {
        request_nonce: 1,
        supported_capabilities: vec![],
        items: vec![
            StoragePayload::AccountAgeWitness(vec![1; 1000]),
            StoragePayload::Filter(build_filter_at(1)),
        ],
    }));
    assert!(processor.left_out(&envelope).is_empty());
    assert_eq!(processor.process(&envelope).len(), 1);
}
