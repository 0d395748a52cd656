//! The fixed ASCII tokens of the wire format and of the recognized
//! vendor field paths, each as a spec sequence with a matching
//! executable constructor.

use vstd::prelude::*;

verus! {

/// `type`
pub open spec fn k_type() -> Seq<u8> {
    seq![116u8, 121u8, 112u8, 101u8]
}

/// `type`
pub fn kv_type() -> (r: Vec<u8>)
    ensures
        r@ == k_type(),
{
    let v: Vec<u8> = vec![116, 121, 112, 101];
    proof {
        assert(v@ =~= k_type());
    }
    v
}

/// `message`
pub open spec fn k_message() -> Seq<u8> {
    seq![109u8, 101u8, 115u8, 115u8, 97u8, 103u8, 101u8]
}

/// `message`
pub fn kv_message() -> (r: Vec<u8>)
    ensures
        r@ == k_message(),
{
    let v: Vec<u8> = vec![109, 101, 115, 115, 97, 103, 101];
    proof {
        assert(v@ =~= k_message());
    }
    v
}

/// `id`
pub open spec fn k_id() -> Seq<u8> {
    seq![105u8, 100u8]
}

/// `id`
pub fn kv_id() -> (r: Vec<u8>)
    ensures
        r@ == k_id(),
{
    let v: Vec<u8> = vec![105, 100];
    proof {
        assert(v@ =~= k_id());
    }
    v
}

/// `created`
pub open spec fn k_created() -> Seq<u8> {
    seq![99u8, 114u8, 101u8, 97u8, 116u8, 101u8, 100u8]
}

/// `created`
pub fn kv_created() -> (r: Vec<u8>)
    ensures
        r@ == k_created(),
{
    let v: Vec<u8> = vec![99, 114, 101, 97, 116, 101, 100];
    proof {
        assert(v@ =~= k_created());
    }
    v
}

/// `model`
pub open spec fn k_model() -> Seq<u8> {
    seq![109u8, 111u8, 100u8, 101u8, 108u8]
}

/// `model`
pub fn kv_model() -> (r: Vec<u8>)
    ensures
        r@ == k_model(),
{
    let v: Vec<u8> = vec![109, 111, 100, 101, 108];
    proof {
        assert(v@ =~= k_model());
    }
    v
}

/// `usage`
pub open spec fn k_usage() -> Seq<u8> {
    seq![117u8, 115u8, 97u8, 103u8, 101u8]
}

/// `usage`
pub fn kv_usage() -> (r: Vec<u8>)
    ensures
        r@ == k_usage(),
{
    let v: Vec<u8> = vec![117, 115, 97, 103, 101];
    proof {
        assert(v@ =~= k_usage());
    }
    v
}

/// `input_tokens`
pub open spec fn k_input_tokens() -> Seq<u8> {
    seq![105u8, 110u8, 112u8, 117u8, 116u8, 95u8, 116u8, 111u8, 107u8, 101u8, 110u8, 115u8]
}

/// `input_tokens`
pub fn kv_input_tokens() -> (r: Vec<u8>)
    ensures
        r@ == k_input_tokens(),
{
    let v: Vec<u8> = vec![105, 110, 112, 117, 116, 95, 116, 111, 107, 101, 110, 115];
    proof {
        assert(v@ =~= k_input_tokens());
    }
    v
}

/// `cache_read_input_tokens`
pub open spec fn k_cache_read_input_tokens() -> Seq<u8> {
    seq![99u8, 97u8, 99u8, 104u8, 101u8, 95u8, 114u8, 101u8, 97u8, 100u8, 95u8, 105u8, 110u8, 112u8, 117u8, 116u8, 95u8, 116u8, 111u8, 107u8, 101u8, 110u8, 115u8]
}

/// `cache_read_input_tokens`
pub fn kv_cache_read_input_tokens() -> (r: Vec<u8>)
    ensures
        r@ == k_cache_read_input_tokens(),
{
    let v: Vec<u8> = vec![99, 97, 99, 104, 101, 95, 114, 101, 97, 100, 95, 105, 110, 112, 117, 116, 95, 116, 111, 107, 101, 110, 115];
    proof {
        assert(v@ =~= k_cache_read_input_tokens());
    }
    v
}

/// `cache_creation_input_tokens`
pub open spec fn k_cache_creation_input_tokens() -> Seq<u8> {
    seq![99u8, 97u8, 99u8, 104u8, 101u8, 95u8, 99u8, 114u8, 101u8, 97u8, 116u8, 105u8, 111u8, 110u8, 95u8, 105u8, 110u8, 112u8, 117u8, 116u8, 95u8, 116u8, 111u8, 107u8, 101u8, 110u8, 115u8]
}

/// `cache_creation_input_tokens`
pub fn kv_cache_creation_input_tokens() -> (r: Vec<u8>)
    ensures
        r@ == k_cache_creation_input_tokens(),
{
    let v: Vec<u8> = vec![99, 97, 99, 104, 101, 95, 99, 114, 101, 97, 116, 105, 111, 110, 95, 105, 110, 112, 117, 116, 95, 116, 111, 107, 101, 110, 115];
    proof {
        assert(v@ =~= k_cache_creation_input_tokens());
    }
    v
}

/// `delta`
pub open spec fn k_delta() -> Seq<u8> {
    seq![100u8, 101u8, 108u8, 116u8, 97u8]
}

/// `delta`
pub fn kv_delta() -> (r: Vec<u8>)
    ensures
        r@ == k_delta(),
{
    let v: Vec<u8> = vec![100, 101, 108, 116, 97];
    proof {
        assert(v@ =~= k_delta());
    }
    v
}

/// `stop_reason`
pub open spec fn k_stop_reason() -> Seq<u8> {
    seq![115u8, 116u8, 111u8, 112u8, 95u8, 114u8, 101u8, 97u8, 115u8, 111u8, 110u8]
}

/// `stop_reason`
pub fn kv_stop_reason() -> (r: Vec<u8>)
    ensures
        r@ == k_stop_reason(),
{
    let v: Vec<u8> = vec![115, 116, 111, 112, 95, 114, 101, 97, 115, 111, 110];
    proof {
        assert(v@ =~= k_stop_reason());
    }
    v
}

/// `output_tokens`
pub open spec fn k_output_tokens() -> Seq<u8> {
    seq![111u8, 117u8, 116u8, 112u8, 117u8, 116u8, 95u8, 116u8, 111u8, 107u8, 101u8, 110u8, 115u8]
}

/// `output_tokens`
pub fn kv_output_tokens() -> (r: Vec<u8>)
    ensures
        r@ == k_output_tokens(),
{
    let v: Vec<u8> = vec![111, 117, 116, 112, 117, 116, 95, 116, 111, 107, 101, 110, 115];
    proof {
        assert(v@ =~= k_output_tokens());
    }
    v
}

/// `text`
pub open spec fn k_text() -> Seq<u8> {
    seq![116u8, 101u8, 120u8, 116u8]
}

/// `text`
pub fn kv_text() -> (r: Vec<u8>)
    ensures
        r@ == k_text(),
{
    let v: Vec<u8> = vec![116, 101, 120, 116];
    proof {
        assert(v@ =~= k_text());
    }
    v
}

/// `thinking`
pub open spec fn k_thinking() -> Seq<u8> {
    seq![116u8, 104u8, 105u8, 110u8, 107u8, 105u8, 110u8, 103u8]
}

/// `thinking`
pub fn kv_thinking() -> (r: Vec<u8>)
    ensures
        r@ == k_thinking(),
{
    let v: Vec<u8> = vec![116, 104, 105, 110, 107, 105, 110, 103];
    proof {
        assert(v@ =~= k_thinking());
    }
    v
}

/// `partial_json`
pub open spec fn k_partial_json() -> Seq<u8> {
    seq![112u8, 97u8, 114u8, 116u8, 105u8, 97u8, 108u8, 95u8, 106u8, 115u8, 111u8, 110u8]
}

/// `partial_json`
pub fn kv_partial_json() -> (r: Vec<u8>)
    ensures
        r@ == k_partial_json(),
{
    let v: Vec<u8> = vec![112, 97, 114, 116, 105, 97, 108, 95, 106, 115, 111, 110];
    proof {
        assert(v@ =~= k_partial_json());
    }
    v
}

/// `choices`
pub open spec fn k_choices() -> Seq<u8> {
    seq![99u8, 104u8, 111u8, 105u8, 99u8, 101u8, 115u8]
}

/// `choices`
pub fn kv_choices() -> (r: Vec<u8>)
    ensures
        r@ == k_choices(),
{
    let v: Vec<u8> = vec![99, 104, 111, 105, 99, 101, 115];
    proof {
        assert(v@ =~= k_choices());
    }
    v
}

/// `content`
pub open spec fn k_content() -> Seq<u8> {
    seq![99u8, 111u8, 110u8, 116u8, 101u8, 110u8, 116u8]
}

/// `content`
pub fn kv_content() -> (r: Vec<u8>)
    ensures
        r@ == k_content(),
{
    let v: Vec<u8> = vec![99, 111, 110, 116, 101, 110, 116];
    proof {
        assert(v@ =~= k_content());
    }
    v
}

/// `finish_reason`
pub open spec fn k_finish_reason() -> Seq<u8> {
    seq![102u8, 105u8, 110u8, 105u8, 115u8, 104u8, 95u8, 114u8, 101u8, 97u8, 115u8, 111u8, 110u8]
}

/// `finish_reason`
pub fn kv_finish_reason() -> (r: Vec<u8>)
    ensures
        r@ == k_finish_reason(),
{
    let v: Vec<u8> = vec![102, 105, 110, 105, 115, 104, 95, 114, 101, 97, 115, 111, 110];
    proof {
        assert(v@ =~= k_finish_reason());
    }
    v
}

/// `prompt_tokens`
pub open spec fn k_prompt_tokens() -> Seq<u8> {
    seq![112u8, 114u8, 111u8, 109u8, 112u8, 116u8, 95u8, 116u8, 111u8, 107u8, 101u8, 110u8, 115u8]
}

/// `prompt_tokens`
pub fn kv_prompt_tokens() -> (r: Vec<u8>)
    ensures
        r@ == k_prompt_tokens(),
{
    let v: Vec<u8> = vec![112, 114, 111, 109, 112, 116, 95, 116, 111, 107, 101, 110, 115];
    proof {
        assert(v@ =~= k_prompt_tokens());
    }
    v
}

/// `completion_tokens`
pub open spec fn k_completion_tokens() -> Seq<u8> {
    seq![99u8, 111u8, 109u8, 112u8, 108u8, 101u8, 116u8, 105u8, 111u8, 110u8, 95u8, 116u8, 111u8, 107u8, 101u8, 110u8, 115u8]
}

/// `completion_tokens`
pub fn kv_completion_tokens() -> (r: Vec<u8>)
    ensures
        r@ == k_completion_tokens(),
{
    let v: Vec<u8> = vec![99, 111, 109, 112, 108, 101, 116, 105, 111, 110, 95, 116, 111, 107, 101, 110, 115];
    proof {
        assert(v@ =~= k_completion_tokens());
    }
    v
}

/// `prompt_tokens_details`
pub open spec fn k_prompt_tokens_details() -> Seq<u8> {
    seq![112u8, 114u8, 111u8, 109u8, 112u8, 116u8, 95u8, 116u8, 111u8, 107u8, 101u8, 110u8, 115u8, 95u8, 100u8, 101u8, 116u8, 97u8, 105u8, 108u8, 115u8]
}

/// `prompt_tokens_details`
pub fn kv_prompt_tokens_details() -> (r: Vec<u8>)
    ensures
        r@ == k_prompt_tokens_details(),
{
    let v: Vec<u8> = vec![112, 114, 111, 109, 112, 116, 95, 116, 111, 107, 101, 110, 115, 95, 100, 101, 116, 97, 105, 108, 115];
    proof {
        assert(v@ =~= k_prompt_tokens_details());
    }
    v
}

/// `cached_tokens`
pub open spec fn k_cached_tokens() -> Seq<u8> {
    seq![99u8, 97u8, 99u8, 104u8, 101u8, 100u8, 95u8, 116u8, 111u8, 107u8, 101u8, 110u8, 115u8]
}

/// `cached_tokens`
pub fn kv_cached_tokens() -> (r: Vec<u8>)
    ensures
        r@ == k_cached_tokens(),
{
    let v: Vec<u8> = vec![99, 97, 99, 104, 101, 100, 95, 116, 111, 107, 101, 110, 115];
    proof {
        assert(v@ =~= k_cached_tokens());
    }
    v
}

/// `message_start`
pub open spec fn k_message_start() -> Seq<u8> {
    seq![109u8, 101u8, 115u8, 115u8, 97u8, 103u8, 101u8, 95u8, 115u8, 116u8, 97u8, 114u8, 116u8]
}

/// `message_start`
pub fn kv_message_start() -> (r: Vec<u8>)
    ensures
        r@ == k_message_start(),
{
    let v: Vec<u8> = vec![109, 101, 115, 115, 97, 103, 101, 95, 115, 116, 97, 114, 116];
    proof {
        assert(v@ =~= k_message_start());
    }
    v
}

/// `content_block_start`
pub open spec fn k_content_block_start() -> Seq<u8> {
    seq![99u8, 111u8, 110u8, 116u8, 101u8, 110u8, 116u8, 95u8, 98u8, 108u8, 111u8, 99u8, 107u8, 95u8, 115u8, 116u8, 97u8, 114u8, 116u8]
}

/// `content_block_start`
pub fn kv_content_block_start() -> (r: Vec<u8>)
    ensures
        r@ == k_content_block_start(),
{
    let v: Vec<u8> = vec![99, 111, 110, 116, 101, 110, 116, 95, 98, 108, 111, 99, 107, 95, 115, 116, 97, 114, 116];
    proof {
        assert(v@ =~= k_content_block_start());
    }
    v
}

/// `content_block_delta`
pub open spec fn k_content_block_delta() -> Seq<u8> {
    seq![99u8, 111u8, 110u8, 116u8, 101u8, 110u8, 116u8, 95u8, 98u8, 108u8, 111u8, 99u8, 107u8, 95u8, 100u8, 101u8, 108u8, 116u8, 97u8]
}

/// `content_block_delta`
pub fn kv_content_block_delta() -> (r: Vec<u8>)
    ensures
        r@ == k_content_block_delta(),
{
    let v: Vec<u8> = vec![99, 111, 110, 116, 101, 110, 116, 95, 98, 108, 111, 99, 107, 95, 100, 101, 108, 116, 97];
    proof {
        assert(v@ =~= k_content_block_delta());
    }
    v
}

/// `message_delta`
pub open spec fn k_message_delta() -> Seq<u8> {
    seq![109u8, 101u8, 115u8, 115u8, 97u8, 103u8, 101u8, 95u8, 100u8, 101u8, 108u8, 116u8, 97u8]
}

/// `message_delta`
pub fn kv_message_delta() -> (r: Vec<u8>)
    ensures
        r@ == k_message_delta(),
{
    let v: Vec<u8> = vec![109, 101, 115, 115, 97, 103, 101, 95, 100, 101, 108, 116, 97];
    proof {
        assert(v@ =~= k_message_delta());
    }
    v
}

/// `thinking_delta`
pub open spec fn k_thinking_delta() -> Seq<u8> {
    seq![116u8, 104u8, 105u8, 110u8, 107u8, 105u8, 110u8, 103u8, 95u8, 100u8, 101u8, 108u8, 116u8, 97u8]
}

/// `thinking_delta`
pub fn kv_thinking_delta() -> (r: Vec<u8>)
    ensures
        r@ == k_thinking_delta(),
{
    let v: Vec<u8> = vec![116, 104, 105, 110, 107, 105, 110, 103, 95, 100, 101, 108, 116, 97];
    proof {
        assert(v@ =~= k_thinking_delta());
    }
    v
}

/// `[DONE]`
pub open spec fn k_done_sentinel() -> Seq<u8> {
    seq![91u8, 68u8, 79u8, 78u8, 69u8, 93u8]
}

/// `[DONE]`
pub fn kv_done_sentinel() -> (r: Vec<u8>)
    ensures
        r@ == k_done_sentinel(),
{
    let v: Vec<u8> = vec![91, 68, 79, 78, 69, 93];
    proof {
        assert(v@ =~= k_done_sentinel());
    }
    v
}

/// `data: `
pub open spec fn k_data_prefix() -> Seq<u8> {
    seq![100u8, 97u8, 116u8, 97u8, 58u8, 32u8]
}

/// `data: `
pub fn kv_data_prefix() -> (r: Vec<u8>)
    ensures
        r@ == k_data_prefix(),
{
    let v: Vec<u8> = vec![100, 97, 116, 97, 58, 32];
    proof {
        assert(v@ =~= k_data_prefix());
    }
    v
}

/// `text/event-stream`
pub open spec fn k_event_stream() -> Seq<u8> {
    seq![116u8, 101u8, 120u8, 116u8, 47u8, 101u8, 118u8, 101u8, 110u8, 116u8, 45u8, 115u8, 116u8, 114u8, 101u8, 97u8, 109u8]
}

/// `text/event-stream`
pub fn kv_event_stream() -> (r: Vec<u8>)
    ensures
        r@ == k_event_stream(),
{
    let v: Vec<u8> = vec![116, 101, 120, 116, 47, 101, 118, 101, 110, 116, 45, 115, 116, 114, 101, 97, 109];
    proof {
        assert(v@ =~= k_event_stream());
    }
    v
}

/// `request`
pub open spec fn k_request_source() -> Seq<u8> {
    seq![114u8, 101u8, 113u8, 117u8, 101u8, 115u8, 116u8]
}

/// `request`
pub fn kv_request_source() -> (r: Vec<u8>)
    ensures
        r@ == k_request_source(),
{
    let v: Vec<u8> = vec![114, 101, 113, 117, 101, 115, 116];
    proof {
        assert(v@ =~= k_request_source());
    }
    v
}

} // verus!
