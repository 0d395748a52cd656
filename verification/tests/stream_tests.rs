use response_processor::collector::SseUsageCollector;
use response_processor::stream::StreamProcessor;

fn processor() -> StreamProcessor {
    StreamProcessor::new(SseUsageCollector::new())
}

const FULL_PAYLOAD: &[u8] = b"data: {\"type\":\"message_start\",\"message\":{\"id\":\"m1\",\"model\":\"model-3\"}}\n\ndata: {\"type\":\"content_block_delta\",\"delta\":{\"text\":\"Hi\"}}\n\ndata: {\"type\":\"message_delta\",\"delta\":{\"stop_reason\":\"end_turn\"},\"usage\":{\"output_tokens\":3}}\n\ndata: [DONE]\n\n";

#[test]
fn end_to_end_typed_dialect() {
    let mut p = processor();
    p.process_chunk(b"data: {\"type\":\"message_start\",\"message\":{\"id\":\"m1\",\"model\":\"model-3\"}}\n\n", 5);
    p.process_chunk(b"data: {\"type\":\"content_block_delta\",\"delta\":{\"text\":\"Hi\"}}\n\n", 7);
    p.process_chunk(b"data: {\"type\":\"message_delta\",\"delta\":{\"stop_reason\":\"end_turn\"},\"usage\":{\"output_tokens\":3}}\n\n", 9);
    p.process_chunk(b"data: [DONE]\n\n", 11);
    let c = p.commit_and_finish(20).expect("first finalize yields the completion");
    assert_eq!(c.data.text, b"Hi".to_vec());
    assert_eq!(c.data.message_id, Some(b"m1".to_vec()));
    assert_eq!(c.data.model, Some(b"model-3".to_vec()));
    assert_eq!(c.data.stop_reason, Some(b"end_turn".to_vec()));
    assert_eq!(c.data.output_tokens, 3);
    assert_eq!(c.data.input_tokens, 0);
    assert_eq!(c.data.cache_read_tokens, 0);
    assert_eq!(c.data.cache_creation_tokens, 0);
    assert_eq!(c.data.created, None);
    // the content delta arrived at 7 ms
    assert_eq!(c.first_token_ms, Some(7));
    assert_eq!(c.latency_ms, 20);
    assert_eq!(c.response_body, Some(FULL_PAYLOAD.to_vec()));
}

fn extract_with_chunking(payload: &[u8], step: usize) -> response_processor::collector::StreamCompletion {
    let mut p = processor();
    let mut i = 0;
    while i < payload.len() {
        let end = (i + step).min(payload.len());
        p.process_chunk(&payload[i..end], 3);
        i = end;
    }
    p.commit_and_finish(50).expect("finalize")
}

#[test]
fn chunk_boundary_independence() {
    let whole = extract_with_chunking(FULL_PAYLOAD, FULL_PAYLOAD.len());
    for step in 1..=FULL_PAYLOAD.len() {
        let split = extract_with_chunking(FULL_PAYLOAD, step);
        assert_eq!(split.data.text, whole.data.text);
        assert_eq!(split.data.message_id, whole.data.message_id);
        assert_eq!(split.data.model, whole.data.model);
        assert_eq!(split.data.stop_reason, whole.data.stop_reason);
        assert_eq!(split.data.created, whole.data.created);
        assert_eq!(split.data.input_tokens, whole.data.input_tokens);
        assert_eq!(split.data.output_tokens, whole.data.output_tokens);
        assert_eq!(split.data.cache_read_tokens, whole.data.cache_read_tokens);
        assert_eq!(split.data.cache_creation_tokens, whole.data.cache_creation_tokens);
        assert_eq!(split.response_body, whole.response_body);
        assert_eq!(split.first_token_ms, whole.first_token_ms);
    }
}

#[test]
fn done_sentinel_never_affects_state() {
    let mut p = processor();
    p.process_chunk(b"data: [DONE]\n\ndata:  [DONE] \n\n", 1);
    let c = p.commit_and_finish(2).expect("finalize");
    assert_eq!(c.data.text, Vec::<u8>::new());
    assert_eq!(c.data.message_id, None);
    assert_eq!(c.data.stop_reason, None);
    assert_eq!(c.data.model, None);
    assert_eq!(c.data.input_tokens, 0);
    assert_eq!(c.data.output_tokens, 0);
    // the sentinel still lands in the raw body snapshot
    assert_eq!(c.response_body, Some(b"data: [DONE]\n\ndata:  [DONE] \n\n".to_vec()));
}

#[test]
fn malformed_event_json_is_dropped() {
    let mut p = processor();
    p.process_chunk(b"data: {not json}\n\ndata: {\"text\":\"ok\"}\n\n", 1);
    let c = p.commit_and_finish(2).expect("finalize");
    assert_eq!(c.data.text, b"ok".to_vec());
}

#[test]
fn lines_without_data_prefix_are_ignored() {
    let mut p = processor();
    p.process_chunk(b"event: ping\nid: 7\n\ndata: {\"text\":\"t\"}\nretry: 3\n\n", 1);
    let c = p.commit_and_finish(2).expect("finalize");
    assert_eq!(c.data.text, b"t".to_vec());
    // the "id: 7" SSE field line is not an event payload
    assert_eq!(c.data.message_id, None);
}

#[test]
fn partial_event_stays_buffered_until_complete() {
    let mut p = processor();
    p.process_chunk(b"data: {\"type\":\"content_block_delta\",\"delta\":{\"text\":\"A\"}}", 1);
    p.process_chunk(b"\n", 2);
    p.process_chunk(b"\ndata: {\"type\":\"content_block_delta\",\"delta\":{\"text\":\"B\"}}\n\n", 3);
    let c = p.commit_and_finish(4).expect("finalize");
    assert_eq!(c.data.text, b"AB".to_vec());
    // first content was seen when the first event completed
    assert_eq!(c.first_token_ms, Some(3));
}

#[test]
fn crlf_data_lines_are_stripped() {
    let mut p = processor();
    p.process_chunk(b"data: {\"text\":\"x\"}\r\ndata: {\"text\":\"y\"}\n\n", 1);
    let c = p.commit_and_finish(2).expect("finalize");
    assert_eq!(c.data.text, b"xy".to_vec());
}

#[test]
fn finalize_after_timeout_keeps_no_body() {
    let mut p = processor();
    p.process_chunk(b"data: {\"text\":\"z\"}\n\n", 1);
    let c = p.finish_only(9).expect("finalize");
    assert_eq!(c.data.text, b"z".to_vec());
    assert_eq!(c.response_body, None);
    assert_eq!(c.latency_ms, 9);
}

#[test]
fn finalize_is_one_shot() {
    let mut p = processor();
    p.process_chunk(b"data: {\"text\":\"once\"}\n\n", 1);
    let first = p.commit_and_finish(5);
    assert!(first.is_some());
    let second = p.commit_and_finish(6);
    assert!(second.is_none());
    let third = p.finish_only(7);
    assert!(third.is_none());
}
