use response_processor::collector::{ExtractedStreamData, SseUsageCollector};
use response_processor::fmt::{build_final_body_from_data, i64_to_dec, u64_to_dec};
use response_processor::stream::StreamProcessor;

#[test]
fn decimal_formatting_unsigned() {
    assert_eq!(u64_to_dec(0), b"0".to_vec());
    assert_eq!(u64_to_dec(7), b"7".to_vec());
    assert_eq!(u64_to_dec(10), b"10".to_vec());
    assert_eq!(u64_to_dec(1700000000), b"1700000000".to_vec());
    assert_eq!(u64_to_dec(u64::MAX), b"18446744073709551615".to_vec());
}

#[test]
fn decimal_formatting_signed() {
    assert_eq!(i64_to_dec(0), b"0".to_vec());
    assert_eq!(i64_to_dec(42), b"42".to_vec());
    assert_eq!(i64_to_dec(-7), b"-7".to_vec());
    assert_eq!(i64_to_dec(i64::MIN), b"-9223372036854775808".to_vec());
    assert_eq!(i64_to_dec(i64::MAX), b"9223372036854775807".to_vec());
}

fn data_with_text(text: &[u8]) -> ExtractedStreamData {
    let mut d = ExtractedStreamData::new();
    d.text = text.to_vec();
    d
}

#[test]
fn final_body_matches_expected_shape() {
    let mut d = data_with_text(b"Hi");
    d.message_id = Some(b"m1".to_vec());
    d.model = Some(b"model-3".to_vec());
    d.stop_reason = Some(b"end_turn".to_vec());
    let body = build_final_body_from_data(&d).expect("text present");
    assert_eq!(
        String::from_utf8(body).unwrap(),
        "{\"created\":null,\"id\":\"m1\",\"model\":\"model-3\",\"stop_reason\":\"end_turn\",\"text\":\"Hi\"}"
    );
}

#[test]
fn final_body_none_without_text() {
    let d = ExtractedStreamData::new();
    assert!(build_final_body_from_data(&d).is_none());
}

#[test]
fn escaping_matches_the_json_rules() {
    let mut d = data_with_text(b"q\" b\\ n\n t\t c\x01");
    d.created = Some(-3);
    let body = build_final_body_from_data(&d).expect("text present");
    let body = String::from_utf8(body).unwrap();
    assert_eq!(
        body,
        "{\"created\":-3,\"id\":null,\"model\":null,\"stop_reason\":null,\"text\":\"q\\\" b\\\\ n\\n t\\t c\\u0001\"}"
    );
    // serde agrees on the escaped text after a round trip
    let v: serde_json::Value = serde_json::from_str(&body).expect("well-formed");
    assert_eq!(v["text"].as_str().unwrap(), "q\" b\\ n\n t\t c\u{1}");
    assert_eq!(v["created"].as_i64(), Some(-3));
}

#[test]
fn combined_output_of_finalize_matches_builder() {
    let mut p = StreamProcessor::new(SseUsageCollector::new());
    p.process_chunk(
        b"data: {\"type\":\"message_start\",\"message\":{\"id\":\"x\",\"created\":77}}\n\ndata: {\"delta\":{\"text\":\"body\"}}\n\n",
        1,
    );
    let c = p.commit_and_finish(2).expect("finalize");
    let expected = build_final_body_from_data(&c.data).expect("text present");
    assert_eq!(c.combined_output, Some(expected));
    assert_eq!(
        String::from_utf8(c.combined_output.unwrap()).unwrap(),
        "{\"created\":77,\"id\":\"x\",\"model\":null,\"stop_reason\":null,\"text\":\"body\"}"
    );
}
