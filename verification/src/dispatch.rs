//! The response dispatcher's branch rule and the streaming timeout
//! selection: which path a reply takes is decided by its content-type
//! header alone, and which timeout bounds a chunk wait is decided by
//! the stream phase, a zero value disabling the bound.

use vstd::prelude::*;

use crate::bytestr::{contains_bytes, contains_seq};
use crate::keys::{k_event_stream, kv_event_stream};

verus! {

/// Streaming timeouts, in seconds: the first applies while waiting for
/// the first chunk, the second between later chunks. A zero value
/// disables that bound independently.
pub struct StreamingTimeoutConfig {
    /// Bound on the wait for the first chunk.
    pub first_byte_timeout: u64,
    /// Bound on the wait between chunks.
    pub idle_timeout: u64,
}

/// A configured number of seconds as a bound: none when zero.
pub open spec fn timeout_of(secs: u64) -> Option<u64> {
    if secs > 0 {
        Some(secs)
    } else {
        None
    }
}

/// The bound that applies to one chunk wait.
pub open spec fn effective_timeout_spec(cfg: StreamingTimeoutConfig, first_chunk: bool) -> Option<
    u64,
> {
    if first_chunk {
        timeout_of(cfg.first_byte_timeout)
    } else {
        timeout_of(cfg.idle_timeout)
    }
}

/// The timeout for the next chunk wait: the first-byte timeout while
/// no chunk has arrived, the idle timeout afterwards; `None` — wait
/// without bound — exactly when the configured value is zero.
pub fn effective_timeout(cfg: &StreamingTimeoutConfig, first_chunk: bool) -> (r: Option<u64>)
    ensures
        r == effective_timeout_spec(*cfg, first_chunk),
        r is None <==> (if first_chunk {
            cfg.first_byte_timeout == 0
        } else {
            cfg.idle_timeout == 0
        }),
{
    if first_chunk {
        if cfg.first_byte_timeout > 0 {
            Some(cfg.first_byte_timeout)
        } else {
            None
        }
    } else {
        if cfg.idle_timeout > 0 {
            Some(cfg.idle_timeout)
        } else {
            None
        }
    }
}

/// A zero timeout waits indefinitely — no bound exists that could
/// fire, so an upstream that never sends a byte never fails by
/// timeout; a nonzero timeout bounds the wait by exactly its value.
pub proof fn lemma_zero_timeout_disables(cfg: StreamingTimeoutConfig)
    ensures
        cfg.first_byte_timeout == 0 ==> effective_timeout_spec(cfg, true) is None,
        cfg.first_byte_timeout > 0 ==> effective_timeout_spec(cfg, true) == Some(
            cfg.first_byte_timeout,
        ),
        cfg.idle_timeout == 0 ==> effective_timeout_spec(cfg, false) is None,
        cfg.idle_timeout > 0 ==> effective_timeout_spec(cfg, false) == Some(cfg.idle_timeout),
{
}

/// A reply is routed to the streaming path exactly when its
/// content-type header carries the event-stream media type as a
/// substring; the body is never read before branching.
pub fn is_sse_content_type(content_type: &[u8]) -> (r: bool)
    ensures
        r == contains_seq(content_type@, k_event_stream()),
{
    let marker = kv_event_stream();
    contains_bytes(content_type, marker.as_slice())
}

} // verus!
