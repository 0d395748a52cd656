//! Response-processing core of an LLM gateway: a streaming pass-through
//! engine that forwards upstream bytes while a side channel incrementally
//! parses usage events out of the same bytes, a thread-agnostic usage
//! collector with an exactly-once finalize, and the model/pricing
//! resolution rules for both streaming and buffered responses.

pub mod bytestr;
pub mod json;
pub mod keys;
pub mod collector;
pub mod fmt;
pub mod dispatch;
pub mod logging;
pub mod stream;
