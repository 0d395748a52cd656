use response_processor::collector::SseUsageCollector;
use response_processor::dispatch::{effective_timeout, is_sse_content_type, StreamingTimeoutConfig};
use response_processor::json::{parse_json, Json};
use response_processor::logging::{
    completion_to_log_entry, resolve_non_streaming_usage, select_pricing_model, TokenUsage,
};
use response_processor::stream::StreamProcessor;

#[test]
fn sse_detection_by_content_type_substring() {
    assert!(is_sse_content_type(b"text/event-stream"));
    assert!(is_sse_content_type(b"text/event-stream; charset=utf-8"));
    assert!(is_sse_content_type(b"application/json; text/event-stream inside"));
    assert!(!is_sse_content_type(b"application/json"));
    assert!(!is_sse_content_type(b""));
    assert!(!is_sse_content_type(b"text/event-strea"));
}

#[test]
fn zero_timeout_waits_indefinitely() {
    let cfg = StreamingTimeoutConfig { first_byte_timeout: 0, idle_timeout: 0 };
    assert_eq!(effective_timeout(&cfg, true), None);
    assert_eq!(effective_timeout(&cfg, false), None);
}

#[test]
fn nonzero_timeout_bounds_the_wait() {
    let cfg = StreamingTimeoutConfig { first_byte_timeout: 30, idle_timeout: 120 };
    assert_eq!(effective_timeout(&cfg, true), Some(30));
    assert_eq!(effective_timeout(&cfg, false), Some(120));
    let mixed = StreamingTimeoutConfig { first_byte_timeout: 0, idle_timeout: 15 };
    assert_eq!(effective_timeout(&mixed, true), None);
    assert_eq!(effective_timeout(&mixed, false), Some(15));
}

fn usage_with_model(model: Option<&[u8]>) -> TokenUsage {
    TokenUsage {
        input_tokens: 1,
        output_tokens: 2,
        cache_read_tokens: 0,
        cache_creation_tokens: 0,
        model: model.map(|m| m.to_vec()),
    }
}

#[test]
fn non_streaming_model_resolution_prefers_usage_model() {
    let json = parse_json(b"{\"model\":\"gpt-x\"}").expect("valid json");
    // usage.model unset: the JSON's top-level model wins over the request model
    let (_, model) =
        resolve_non_streaming_usage(Some(&json), Some(usage_with_model(None)), b"req-y");
    assert_eq!(model, b"gpt-x".to_vec());
    // usage.model set: it wins regardless of the JSON's model
    let (u, model) = resolve_non_streaming_usage(
        Some(&json),
        Some(usage_with_model(Some(b"vendor-z"))),
        b"req-y",
    );
    assert_eq!(model, b"vendor-z".to_vec());
    assert_eq!(u.input_tokens, 1);
}

#[test]
fn non_streaming_fallbacks() {
    // JSON body, no usage parsed, no top-level model: the request model
    let json = parse_json(b"{\"ok\":true}").expect("valid json");
    let (u, model) = resolve_non_streaming_usage(Some(&json), None, b"req-y");
    assert_eq!(model, b"req-y".to_vec());
    assert_eq!(u.input_tokens, 0);
    assert_eq!(u.output_tokens, 0);
    // JSON body, no usage parsed, with a top-level model
    let json2 = parse_json(b"{\"model\":\"m2\"}").expect("valid json");
    let (_, model2) = resolve_non_streaming_usage(Some(&json2), None, b"req-y");
    assert_eq!(model2, b"m2".to_vec());
    // non-JSON body: zero usage under the request model
    assert!(parse_json(b"not json").is_none());
    let (u3, model3) = resolve_non_streaming_usage(None, None, b"req-y");
    assert_eq!(model3, b"req-y".to_vec());
    assert!(!u3.is_nonzero());
}

#[test]
fn pricing_model_source_selects() {
    assert_eq!(
        select_pricing_model(b"request", b"resp-model", b"req-model"),
        b"req-model".to_vec()
    );
    assert_eq!(
        select_pricing_model(b"response", b"resp-model", b"req-model"),
        b"resp-model".to_vec()
    );
    // any other source falls back to the observed model
    assert_eq!(
        select_pricing_model(b"", b"resp-model", b"req-model"),
        b"resp-model".to_vec()
    );
}

fn run_stream(payload: &[u8]) -> response_processor::collector::StreamCompletion {
    let mut p = StreamProcessor::new(SseUsageCollector::new());
    p.process_chunk(payload, 4);
    p.commit_and_finish(10).expect("finalize")
}

#[test]
fn completion_entry_with_usage_embeds_counters() {
    let c = run_stream(
        b"data: {\"type\":\"message_start\",\"message\":{\"model\":\"m-1\",\"usage\":{\"input_tokens\":3}}}\n\ndata: {\"type\":\"content_block_delta\",\"delta\":{\"text\":\"ok\"}}\n\n",
    );
    let entry = completion_to_log_entry(c, b"req-m", b"fallback-m", None, Some(b"{}".to_vec()), 200);
    assert_eq!(entry.model, b"m-1".to_vec());
    assert_eq!(entry.request_model, b"req-m".to_vec());
    assert!(entry.is_streaming);
    assert_eq!(entry.status_code, 200);
    assert_eq!(entry.latency_ms, 10);
    assert_eq!(entry.usage.input_tokens, 3);
    let body = String::from_utf8(entry.response_body.expect("synthesized body")).unwrap();
    assert_eq!(
        body,
        "{\"created\":null,\"first_token_ms\":4,\"id\":null,\"model\":\"m-1\",\"stop_reason\":null,\"text\":\"ok\",\"usage\":{\"cache_creation_tokens\":0,\"cache_read_tokens\":0,\"input_tokens\":3,\"output_tokens\":0}}"
    );
    // the synthesized body is well-formed JSON
    let parsed: serde_json::Value = serde_json::from_str(&body).expect("well-formed");
    assert_eq!(parsed["usage"]["input_tokens"], serde_json::Value::from(3));
}

#[test]
fn completion_entry_without_usage_has_plain_body() {
    let c = run_stream(b"data: {\"type\":\"content_block_delta\",\"delta\":{\"text\":\"hey\"}}\n\n");
    let entry = completion_to_log_entry(c, b"req-m", b"fb-m", None, None, 200);
    // no model was extracted: the dialect's fallback is used
    assert_eq!(entry.model, b"fb-m".to_vec());
    assert!(!entry.usage.is_nonzero());
    let body = String::from_utf8(entry.response_body.expect("synthesized body")).unwrap();
    assert_eq!(
        body,
        "{\"created\":null,\"first_token_ms\":4,\"id\":null,\"model\":null,\"stop_reason\":null,\"text\":\"hey\"}"
    );
}

#[test]
fn completion_entry_without_text_falls_back_to_raw_body() {
    let c = run_stream(b"data: [DONE]\n\n");
    let entry = completion_to_log_entry(c, b"req-m", b"fb-m", None, None, 502);
    assert_eq!(entry.response_body, Some(b"data: [DONE]\n\n".to_vec()));
    assert_eq!(entry.status_code, 502);
}

#[test]
fn default_usage_is_zero() {
    let u = TokenUsage::default();
    assert_eq!(u.input_tokens, 0);
    assert_eq!(u.output_tokens, 0);
    assert_eq!(u.cache_read_tokens, 0);
    assert_eq!(u.cache_creation_tokens, 0);
    assert!(u.model.is_none());
    assert!(!u.is_nonzero());
}

#[test]
fn parse_json_reshapes_the_document() {
    // a check through the collector that the parse wrapper yields the
    // parsed tree and not the raw input
    let j = parse_json(b" {\"a\": [1, true, null, \"s\"]} ").expect("valid");
    match &j {
        Json::Obj(entries) => {
            assert_eq!(entries.len(), 1);
            assert_eq!(entries[0].0, b"a".to_vec());
            match &entries[0].1 {
                Json::Arr(items) => {
                    assert_eq!(items.len(), 4);
                    assert!(matches!(items[0], Json::Int(1)));
                    assert!(matches!(items[1], Json::Bool(true)));
                    assert!(matches!(items[2], Json::Null));
                    assert!(matches!(&items[3], Json::Str(s) if s == &b"s".to_vec()));
                }
                other => panic!("expected array, got {:?}", std::mem::discriminant(other)),
            }
        }
        _ => panic!("expected object"),
    }
}
