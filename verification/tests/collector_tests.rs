use response_processor::collector::{ExtractedStreamData, SseUsageCollector};
use response_processor::json::Json;

fn obj(entries: Vec<(&[u8], Json)>) -> Json {
    Json::Obj(entries.into_iter().map(|(k, v)| (k.to_vec(), v)).collect())
}

fn s(v: &[u8]) -> Json {
    Json::Str(v.to_vec())
}

fn finish_data(c: &mut SseUsageCollector) -> ExtractedStreamData {
    c.finish(0).expect("finalize").data
}

#[test]
fn counters_first_nonzero_wins() {
    let mut c = SseUsageCollector::new();
    // no usage yet
    let e1 = obj(vec![(b"usage", obj(vec![(b"prompt_tokens", Json::Int(0))]))]);
    // first non-zero values
    let e2 = obj(vec![(
        b"usage",
        obj(vec![
            (b"prompt_tokens", Json::Int(11)),
            (b"completion_tokens", Json::Int(22)),
        ]),
    )]);
    // later values must not override
    let e3 = obj(vec![(
        b"usage",
        obj(vec![
            (b"prompt_tokens", Json::Int(99)),
            (b"completion_tokens", Json::Int(98)),
            (
                b"prompt_tokens_details",
                obj(vec![(b"cached_tokens", Json::Int(7))]),
            ),
        ]),
    )]);
    c.push(&e1, 1);
    c.push(&e2, 2);
    c.push(&e3, 3);
    let d = finish_data(&mut c);
    assert_eq!(d.input_tokens, 11);
    assert_eq!(d.output_tokens, 22);
    // the cache counter was first supplied non-zero by the third event
    assert_eq!(d.cache_read_tokens, 7);
}

#[test]
fn message_start_usage_counters() {
    let mut c = SseUsageCollector::new();
    let ev = obj(vec![
        (b"type", s(b"message_start")),
        (
            b"message",
            obj(vec![
                (b"id", s(b"id-1")),
                (b"created", Json::Int(1700000000)),
                (b"model", s(b"m-x")),
                (
                    b"usage",
                    obj(vec![
                        (b"input_tokens", Json::Int(5)),
                        (b"cache_read_input_tokens", Json::Int(6)),
                        (b"cache_creation_input_tokens", Json::Int(8)),
                    ]),
                ),
            ]),
        ),
    ]);
    c.push(&ev, 1);
    let d = finish_data(&mut c);
    assert_eq!(d.message_id, Some(b"id-1".to_vec()));
    assert_eq!(d.created, Some(1700000000));
    assert_eq!(d.model, Some(b"m-x".to_vec()));
    assert_eq!(d.input_tokens, 5);
    assert_eq!(d.cache_read_tokens, 6);
    assert_eq!(d.cache_creation_tokens, 8);
    assert_eq!(d.output_tokens, 0);
}

#[test]
fn headerless_dialect_fields() {
    let mut c = SseUsageCollector::new();
    let ev = obj(vec![
        (b"id", s(b"chat-1")),
        (b"created", Json::Int(1234)),
        (
            b"choices",
            Json::Arr(vec![obj(vec![
                (b"delta", obj(vec![(b"content", s(b"Hello"))])),
                (b"finish_reason", s(b"stop")),
            ])]),
        ),
    ]);
    c.push(&ev, 42);
    let mut c2 = SseUsageCollector::new();
    c2.push(&ev, 42);
    let d = finish_data(&mut c);
    assert_eq!(d.message_id, Some(b"chat-1".to_vec()));
    assert_eq!(d.created, Some(1234));
    assert_eq!(d.stop_reason, Some(b"stop".to_vec()));
    assert_eq!(d.text, b"Hello".to_vec());
    // the header-less content delta counts as first content
    let comp = c2.finish(50).expect("finalize");
    assert_eq!(comp.first_token_ms, Some(42));
}

#[test]
fn first_content_time_recorded_once() {
    let mut c = SseUsageCollector::new();
    let meta = obj(vec![(b"type", s(b"message_start"))]);
    let delta = obj(vec![
        (b"type", s(b"content_block_delta")),
        (b"delta", obj(vec![(b"text", s(b"a"))])),
    ]);
    c.push(&meta, 10);
    c.push(&delta, 20);
    c.push(&delta, 30);
    let comp = c.finish(40).expect("finalize");
    assert_eq!(comp.first_token_ms, Some(20));
    assert_eq!(comp.data.text, b"aa".to_vec());
}

#[test]
fn text_scan_covers_all_shapes() {
    let mut c = SseUsageCollector::new();
    let ev = obj(vec![
        (
            b"delta",
            obj(vec![
                (b"text", s(b"1")),
                (b"thinking", s(b"2")),
                (b"partial_json", s(b"3")),
            ]),
        ),
        (
            b"choices",
            Json::Arr(vec![
                obj(vec![(b"delta", obj(vec![(b"content", s(b"4"))]))]),
                obj(vec![(b"delta", obj(vec![(b"content", s(b"5"))]))]),
            ]),
        ),
        (b"text", s(b"6")),
        (
            b"content",
            Json::Arr(vec![obj(vec![(b"text", s(b"7")), (b"thinking", s(b"8"))])]),
        ),
        (
            b"message",
            obj(vec![(
                b"content",
                Json::Arr(vec![obj(vec![(b"text", s(b"9"))])]),
            )]),
        ),
    ]);
    c.push(&ev, 1);
    let d = finish_data(&mut c);
    assert_eq!(d.text, b"123456789".to_vec());
}

#[test]
fn content_string_shape() {
    let mut c = SseUsageCollector::new();
    let ev = obj(vec![(b"content", s(b"plain"))]);
    c.push(&ev, 1);
    let d = finish_data(&mut c);
    assert_eq!(d.text, b"plain".to_vec());
}

#[test]
fn message_delta_metadata() {
    let mut c = SseUsageCollector::new();
    let ev = obj(vec![
        (b"type", s(b"message_delta")),
        (b"delta", obj(vec![(b"stop_reason", s(b"max_tokens"))])),
        (
            b"usage",
            obj(vec![(b"output_tokens", Json::Int(17)), (b"model", s(b"m-d"))]),
        ),
    ]);
    c.push(&ev, 1);
    let d = finish_data(&mut c);
    assert_eq!(d.stop_reason, Some(b"max_tokens".to_vec()));
    assert_eq!(d.output_tokens, 17);
    assert_eq!(d.model, Some(b"m-d".to_vec()));
}

#[test]
fn content_block_start_model() {
    let mut c = SseUsageCollector::new();
    let ev = obj(vec![
        (b"type", s(b"content_block_start")),
        (b"message", obj(vec![(b"model", s(b"m-cbs"))])),
    ]);
    c.push(&ev, 1);
    let d = finish_data(&mut c);
    assert_eq!(d.model, Some(b"m-cbs".to_vec()));
}

#[test]
fn metadata_first_wins_across_events() {
    let mut c = SseUsageCollector::new();
    let e1 = obj(vec![(b"id", s(b"first"))]);
    let e2 = obj(vec![(b"id", s(b"second")), (b"created", Json::Int(2))]);
    c.push(&e1, 1);
    c.push(&e2, 2);
    let d = finish_data(&mut c);
    assert_eq!(d.message_id, Some(b"first".to_vec()));
    assert_eq!(d.created, Some(2));
}

#[test]
fn set_response_body_overwrites() {
    let mut c = SseUsageCollector::new();
    c.set_response_body(b"one".to_vec());
    c.set_response_body(b"two".to_vec());
    let comp = c.finish(1).expect("finalize");
    assert_eq!(comp.response_body, Some(b"two".to_vec()));
}

#[test]
fn extract_text_from_events_concatenates() {
    let events = vec![
        obj(vec![(b"delta", obj(vec![(b"text", s(b"He"))]))]),
        obj(vec![(b"delta", obj(vec![(b"text", s(b"y"))]))]),
    ];
    let text = SseUsageCollector::extract_text_from_events(&events);
    assert_eq!(text, b"Hey".to_vec());
}

#[test]
fn extract_metadata_from_events_triple() {
    let events = vec![
        obj(vec![
            (b"type", s(b"message_start")),
            (
                b"message",
                obj(vec![(b"id", s(b"mid")), (b"created", Json::Int(9))]),
            ),
        ]),
        obj(vec![
            (b"type", s(b"message_delta")),
            (b"delta", obj(vec![(b"stop_reason", s(b"end_turn"))])),
        ]),
    ];
    let (id, stop, created) = SseUsageCollector::extract_metadata_from_events(&events);
    assert_eq!(id, Some(b"mid".to_vec()));
    assert_eq!(stop, Some(b"end_turn".to_vec()));
    assert_eq!(created, Some(9));
}

#[test]
fn build_final_response_body_from_events() {
    let events = vec![obj(vec![(b"text", s(b"T\"x"))])];
    let body = SseUsageCollector::build_final_response_body(&events).expect("text present");
    assert_eq!(
        String::from_utf8(body).unwrap(),
        "{\"events_count\":1,\"extracted\":true,\"text\":\"T\\\"x\"}"
    );
    let none = SseUsageCollector::build_final_response_body(&Vec::new());
    assert!(none.is_none());
}

#[test]
fn counters_keep_the_low_32_bits() {
    let mut c = SseUsageCollector::new();
    // 1 << 32 truncates to zero, so the counter stays unset
    let e1 = obj(vec![(b"usage", obj(vec![(b"prompt_tokens", Json::Int(4294967296))]))]);
    // and a later event may still supply it
    let e2 = obj(vec![(b"usage", obj(vec![(b"prompt_tokens", Json::Int(4294967305))]))]);
    c.push(&e1, 1);
    c.push(&e2, 2);
    let d = finish_data(&mut c);
    assert_eq!(d.input_tokens, 9);
}

#[test]
fn non_string_fields_are_ignored() {
    let mut c = SseUsageCollector::new();
    // a numeric id and a non-string text never land in the record
    let ev = obj(vec![
        (b"id", Json::Int(5)),
        (b"text", Json::Int(9)),
        (b"created", s(b"not-a-number")),
    ]);
    c.push(&ev, 1);
    let d = finish_data(&mut c);
    assert_eq!(d.message_id, None);
    assert_eq!(d.created, None);
    assert_eq!(d.text, Vec::<u8>::new());
}
