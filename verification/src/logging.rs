//! The usage logging bridge: normalizes collector or non-streaming
//! output into one log entry, resolves the observed and pricing model
//! names, and synthesizes the response body that is persisted.

use vstd::prelude::*;

use crate::bytestr::{bytes_eq, copy_bytes};
use crate::collector::{
    opt_bytes_view, ExtractedStreamData, StreamCompletion, StreamCompletionV, StreamDataV,
};
use crate::fmt::{
    build_stream_body_plain, build_stream_body_with_usage, stream_body_plain_spec,
    stream_body_with_usage_spec,
};
use crate::json::{jv_str_at, Json, JsonV};
use crate::keys::{k_model, k_request_source, kv_model, kv_request_source};

verus! {

/// Model of a normalized usage snapshot.
pub struct TokenUsageV {
    pub input_tokens: u32,
    pub output_tokens: u32,
    pub cache_read_tokens: u32,
    pub cache_creation_tokens: u32,
    pub model: Option<Seq<u8>>,
}

/// Normalized snapshot of the four token counters and the model name
/// the upstream reported, derived from extracted stream data or from a
/// single non-streaming parse.
pub struct TokenUsage {
    /// Input tokens.
    pub input_tokens: u32,
    /// Output tokens.
    pub output_tokens: u32,
    /// Cache-read tokens.
    pub cache_read_tokens: u32,
    /// Cache-creation tokens.
    pub cache_creation_tokens: u32,
    /// Model name reported beside the counters.
    pub model: Option<Vec<u8>>,
}

impl View for TokenUsage {
    type V = TokenUsageV;

    open spec fn view(&self) -> TokenUsageV {
        TokenUsageV {
            input_tokens: self.input_tokens,
            output_tokens: self.output_tokens,
            cache_read_tokens: self.cache_read_tokens,
            cache_creation_tokens: self.cache_creation_tokens,
            model: opt_bytes_view(self.model),
        }
    }
}

/// The all-zero snapshot without a model.
pub open spec fn zero_usage() -> TokenUsageV {
    TokenUsageV {
        input_tokens: 0,
        output_tokens: 0,
        cache_read_tokens: 0,
        cache_creation_tokens: 0,
        model: None,
    }
}

impl Default for TokenUsage {
    /// The all-zero snapshot.
    fn default() -> (r: Self)
        ensures
            r@ == zero_usage(),
    {
        TokenUsage {
            input_tokens: 0,
            output_tokens: 0,
            cache_read_tokens: 0,
            cache_creation_tokens: 0,
            model: None,
        }
    }
}

/// The snapshot carried by extracted stream data.
pub open spec fn usage_of_data(d: StreamDataV) -> TokenUsageV {
    TokenUsageV {
        input_tokens: d.input_tokens,
        output_tokens: d.output_tokens,
        cache_read_tokens: d.cache_read_tokens,
        cache_creation_tokens: d.cache_creation_tokens,
        model: d.model,
    }
}

/// Builds `usage_of_data`.
pub fn usage_from_data(d: &ExtractedStreamData) -> (r: TokenUsage)
    ensures
        r@ == usage_of_data(d@),
{
    TokenUsage {
        input_tokens: d.input_tokens,
        output_tokens: d.output_tokens,
        cache_read_tokens: d.cache_read_tokens,
        cache_creation_tokens: d.cache_creation_tokens,
        model: (match &d.model {
            Some(m) => Some(copy_bytes(m)),
            None => None,
        }),
    }
}

/// Any of the four counters is non-zero.
pub open spec fn has_usage(u: TokenUsageV) -> bool {
    u.input_tokens > 0 || u.output_tokens > 0 || u.cache_read_tokens > 0
        || u.cache_creation_tokens > 0
}

impl TokenUsage {
    /// Whether any counter is non-zero, mirroring `has_usage`.
    pub fn is_nonzero(&self) -> (r: bool)
        ensures
            r == has_usage(self@),
    {
        self.input_tokens > 0 || self.output_tokens > 0 || self.cache_read_tokens > 0
            || self.cache_creation_tokens > 0
    }
}

/// Strict precedence for the billed model name of a non-streaming
/// reply: the model embedded in the parsed usage, else the top-level
/// model of the JSON, else the client-requested model.
pub open spec fn resolve_model_spec(
    usage_model: Option<Seq<u8>>,
    json_model: Option<Seq<u8>>,
    request_model: Seq<u8>,
) -> Seq<u8> {
    match usage_model {
        Some(m) => m,
        None => match json_model {
            Some(m) => m,
            None => request_model,
        },
    }
}

/// Resolves the billed model name, mirroring `resolve_model_spec`.
pub fn resolve_response_model(
    usage_model: &Option<Vec<u8>>,
    json_model: &Option<Vec<u8>>,
    request_model: &[u8],
) -> (r: Vec<u8>)
    ensures
        r@ == resolve_model_spec(
            opt_bytes_view(*usage_model),
            opt_bytes_view(*json_model),
            request_model@,
        ),
{
    match usage_model {
        Some(m) => copy_bytes(m),
        None => match json_model {
            Some(m) => copy_bytes(m),
            None => {
                let mut r: Vec<u8> = Vec::new();
                r.extend_from_slice(request_model);
                proof {
                    assert(r@ =~= request_model@);
                }
                r
            },
        },
    }
}

/// What the non-streaming handler logs, on each of its three paths: a
/// body that is not JSON yields zero usage under the requested model;
/// a JSON body whose dialect parse yields no usage yields zero usage
/// under the JSON's top-level model, else the requested model; a
/// dialect parse that yields usage is logged as parsed, under the
/// model resolved by `resolve_model_spec`.
pub open spec fn non_streaming_usage_spec(
    json: Option<JsonV>,
    parsed: Option<TokenUsageV>,
    request_model: Seq<u8>,
) -> (TokenUsageV, Seq<u8>) {
    match json {
        None => (zero_usage(), request_model),
        Some(j) => match parsed {
            Some(u) => (u, resolve_model_spec(u.model, jv_str_at(j, k_model()), request_model)),
            None => (
                zero_usage(),
                (match jv_str_at(j, k_model()) {
                    Some(m) => m,
                    None => request_model,
                }),
            ),
        },
    }
}

/// Resolves the usage record and the billed model of a non-streaming
/// reply, given the parsed body (when the body was JSON) and what the
/// dialect's response parser made of it.
pub fn resolve_non_streaming_usage(
    json: Option<&Json>,
    parsed: Option<TokenUsage>,
    request_model: &[u8],
) -> (r: (TokenUsage, Vec<u8>))
    ensures
        (r.0@, r.1@) == non_streaming_usage_spec(
            (match json {
                Some(j) => Some(j@),
                None => None,
            }),
            (match parsed {
                Some(u) => Some(u@),
                None => None,
            }),
            request_model@,
        ),
{
    let km = kv_model();
    match json {
        None => (TokenUsage::default(), slice_to_vec_bytes(request_model)),
        Some(j) => {
            let json_model: Option<Vec<u8>> = match j.str_at(km.as_slice()) {
                Some(m) => Some(copy_bytes(m)),
                None => None,
            };
            match parsed {
                Some(u) => {
                    let model = resolve_response_model(&u.model, &json_model, request_model);
                    (u, model)
                },
                None => {
                    let model: Vec<u8> = match json_model {
                        Some(m) => m,
                        None => slice_to_vec_bytes(request_model),
                    };
                    (TokenUsage::default(), model)
                },
            }
        },
    }
}

fn slice_to_vec_bytes(s: &[u8]) -> (r: Vec<u8>)
    ensures
        r@ == s@,
{
    let mut r: Vec<u8> = Vec::new();
    r.extend_from_slice(s);
    proof {
        assert(r@ =~= s@);
    }
    r
}

/// The pricing model: the requested model when the configured source
/// is the request, the observed model otherwise.
pub open spec fn pricing_model_spec(
    source: Seq<u8>,
    model: Seq<u8>,
    request_model: Seq<u8>,
) -> Seq<u8> {
    if source == k_request_source() {
        request_model
    } else {
        model
    }
}

/// Selects the model that drives pricing, mirroring
/// `pricing_model_spec`; the source flag comes from the persistence
/// collaborator's configuration.
pub fn select_pricing_model(source: &[u8], model: &[u8], request_model: &[u8]) -> (r: Vec<u8>)
    ensures
        r@ == pricing_model_spec(source@, model@, request_model@),
{
    let req = kv_request_source();
    if bytes_eq(source, req.as_slice()) {
        slice_to_vec_bytes(request_model)
    } else {
        slice_to_vec_bytes(model)
    }
}

/// Model of one usage log entry.
pub struct UsageLogEntryV {
    pub model: Seq<u8>,
    pub request_model: Seq<u8>,
    pub usage: TokenUsageV,
    pub latency_ms: u64,
    pub first_token_ms: Option<u64>,
    pub is_streaming: bool,
    pub status_code: u16,
    pub request_body: Option<Seq<u8>>,
    pub response_body: Option<Seq<u8>>,
}

/// One usage record ready for the persistence collaborator; the
/// request identifier, provider id, dialect tag, session id and cost
/// configuration are supplied at the dispatch site.
pub struct UsageLogEntry {
    /// Observed model.
    pub model: Vec<u8>,
    /// Client-requested model.
    pub request_model: Vec<u8>,
    /// The four counters and the reported model.
    pub usage: TokenUsage,
    /// Total latency.
    pub latency_ms: u64,
    /// Time to first content, when one was seen.
    pub first_token_ms: Option<u64>,
    /// Whether the reply was streamed.
    pub is_streaming: bool,
    /// Upstream status code.
    pub status_code: u16,
    /// The request body, for the audit trail.
    pub request_body: Option<Vec<u8>>,
    /// The synthesized or raw response body.
    pub response_body: Option<Vec<u8>>,
}

impl View for UsageLogEntry {
    type V = UsageLogEntryV;

    open spec fn view(&self) -> UsageLogEntryV {
        UsageLogEntryV {
            model: self.model@,
            request_model: self.request_model@,
            usage: self.usage@,
            latency_ms: self.latency_ms,
            first_token_ms: self.first_token_ms,
            is_streaming: self.is_streaming,
            status_code: self.status_code,
            request_body: opt_bytes_view(self.request_body),
            response_body: opt_bytes_view(self.response_body),
        }
    }
}

/// The model name embedded in a synthesized with-usage body: the
/// reported model, or empty.
pub open spec fn embedded_model_spec(d: StreamDataV) -> Seq<u8> {
    match d.model {
        Some(m) => m,
        None => Seq::empty(),
    }
}

/// The response body a finished stream is logged with: the raw
/// snapshot (or the fallback) when no text was extracted, else the
/// synthesized record, with the usage object exactly when any counter
/// is non-zero.
pub open spec fn completion_body_spec(c: StreamCompletionV, prior_body: Option<Seq<u8>>) -> Option<
    Seq<u8>,
> {
    let fb = (match c.response_body {
        Some(b) => Some(b),
        None => prior_body,
    });
    if c.data.text.len() == 0 {
        fb
    } else if has_usage(usage_of_data(c.data)) {
        Some(
            stream_body_with_usage_spec(
                c.data,
                embedded_model_spec(c.data),
                c.first_token_ms,
                c.data.input_tokens,
                c.data.output_tokens,
                c.data.cache_read_tokens,
                c.data.cache_creation_tokens,
            ),
        )
    } else {
        Some(stream_body_plain_spec(c.data, c.first_token_ms))
    }
}

/// The whole log entry of a finished stream: the observed model is the
/// extracted one, else the dialect's fallback; the counters come from
/// the extracted data; the body from `completion_body_spec`.
pub open spec fn completion_log_spec(
    c: StreamCompletionV,
    request_model: Seq<u8>,
    fallback_model: Seq<u8>,
    prior_body: Option<Seq<u8>>,
    request_body: Option<Seq<u8>>,
    status_code: u16,
) -> UsageLogEntryV {
    UsageLogEntryV {
        model: (match c.data.model {
            Some(m) => m,
            None => fallback_model,
        }),
        request_model,
        usage: usage_of_data(c.data),
        latency_ms: c.latency_ms,
        first_token_ms: c.first_token_ms,
        is_streaming: true,
        status_code,
        request_body,
        response_body: completion_body_spec(c, prior_body),
    }
}

/// Turns one stream completion into the usage log entry that the
/// detached persistence task carries, mirroring `completion_log_spec`.
/// `fallback_model` is what the dialect's model extractor returned for
/// an empty event list.
pub fn completion_to_log_entry(
    c: StreamCompletion,
    request_model: &[u8],
    fallback_model: &[u8],
    prior_body: Option<Vec<u8>>,
    request_body: Option<Vec<u8>>,
    status_code: u16,
) -> (r: UsageLogEntry)
    ensures
        r@ == completion_log_spec(
            c@,
            request_model@,
            fallback_model@,
            opt_bytes_view(prior_body),
            opt_bytes_view(request_body),
            status_code,
        ),
{
    let usage = usage_from_data(&c.data);
    let model: Vec<u8> = match &c.data.model {
        Some(m) => copy_bytes(m),
        None => slice_to_vec_bytes(fallback_model),
    };
    let fb: Option<Vec<u8>> = match c.response_body {
        Some(b) => Some(b),
        None => prior_body,
    };
    let response_body: Option<Vec<u8>> = if c.data.text.len() == 0 {
        fb
    } else if usage.is_nonzero() {
        Some(
            build_stream_body_with_usage(
                &c.data,
                model_or_empty(&c.data).as_slice(),
                c.first_token_ms,
                c.data.input_tokens,
                c.data.output_tokens,
                c.data.cache_read_tokens,
                c.data.cache_creation_tokens,
            ),
        )
    } else {
        Some(build_stream_body_plain(&c.data, c.first_token_ms))
    };
    UsageLogEntry {
        model,
        request_model: slice_to_vec_bytes(request_model),
        usage,
        latency_ms: c.latency_ms,
        first_token_ms: c.first_token_ms,
        is_streaming: true,
        status_code,
        request_body,
        response_body,
    }
}

fn model_or_empty(d: &ExtractedStreamData) -> (r: Vec<u8>)
    ensures
        r@ == embedded_model_spec(d@),
{
    match &d.model {
        Some(m) => copy_bytes(m),
        None => Vec::new(),
    }
}

} // verus!
