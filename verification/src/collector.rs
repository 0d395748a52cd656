//! The usage collector: accumulates billing-relevant data out of a
//! heterogeneous stream of JSON events, field by field, under a strict
//! first-non-empty-wins policy, with a one-shot finalize.

use vstd::prelude::*;

use crate::bytestr::{bytes_eq, copy_bytes};
use crate::fmt::{build_final_body_from_data, final_body_spec};
use crate::json::{
    jv_arr, jv_get, jv_get2, jv_i64, jv_i64_at, jv_str, jv_str_at, jv_str_at2, jv_u64_or0_at,
    jview, jview_seq, lemma_jview_seq, Json, JsonV,
};
use crate::keys::{
    k_cache_creation_input_tokens, k_cache_read_input_tokens, k_cached_tokens, k_choices,
    k_completion_tokens, k_content, k_content_block_delta, k_content_block_start, k_created,
    k_delta, k_finish_reason, k_id, k_input_tokens, k_message, k_message_delta, k_message_start,
    k_model, k_output_tokens, k_partial_json, k_prompt_tokens, k_prompt_tokens_details,
    k_stop_reason, k_text, k_thinking, k_thinking_delta, k_type, k_usage, kv_cache_creation_input_tokens,
    kv_cache_read_input_tokens, kv_cached_tokens, kv_choices, kv_completion_tokens, kv_content,
    kv_content_block_delta, kv_content_block_start, kv_created, kv_delta, kv_finish_reason, kv_id,
    kv_input_tokens, kv_message, kv_message_delta, kv_message_start, kv_model, kv_output_tokens,
    kv_partial_json, kv_prompt_tokens, kv_prompt_tokens_details, kv_stop_reason, kv_text,
    kv_thinking, kv_thinking_delta, kv_type, kv_usage,
};

verus! {

/// Model of the accumulated extraction state.
pub struct StreamDataV {
    pub text: Seq<u8>,
    pub message_id: Option<Seq<u8>>,
    pub stop_reason: Option<Seq<u8>>,
    pub created: Option<i64>,
    pub model: Option<Seq<u8>>,
    pub input_tokens: u32,
    pub output_tokens: u32,
    pub cache_read_tokens: u32,
    pub cache_creation_tokens: u32,
}

/// The state before any event: no text, no metadata, zero counters.
pub open spec fn empty_data() -> StreamDataV {
    StreamDataV {
        text: Seq::empty(),
        message_id: None,
        stop_reason: None,
        created: None,
        model: None,
        input_tokens: 0,
        output_tokens: 0,
        cache_read_tokens: 0,
        cache_creation_tokens: 0,
    }
}

/// Accumulated data extracted from the stream so far; every field obeys
/// first-non-empty-wins.
pub struct ExtractedStreamData {
    /// Combined text from all content-carrying events.
    pub text: Vec<u8>,
    /// Message id reported by the upstream.
    pub message_id: Option<Vec<u8>>,
    /// Stop reason reported by the upstream.
    pub stop_reason: Option<Vec<u8>>,
    /// Creation timestamp reported by the upstream.
    pub created: Option<i64>,
    /// Model name reported by the upstream.
    pub model: Option<Vec<u8>>,
    /// Input tokens.
    pub input_tokens: u32,
    /// Output tokens.
    pub output_tokens: u32,
    /// Cache-read tokens.
    pub cache_read_tokens: u32,
    /// Cache-creation tokens.
    pub cache_creation_tokens: u32,
}

/// The view of an optional byte buffer.
pub open spec fn opt_bytes_view(o: Option<Vec<u8>>) -> Option<Seq<u8>> {
    match o {
        Some(v) => Some(v@),
        None => None,
    }
}

impl View for ExtractedStreamData {
    type V = StreamDataV;

    open spec fn view(&self) -> StreamDataV {
        StreamDataV {
            text: self.text@,
            message_id: opt_bytes_view(self.message_id),
            stop_reason: opt_bytes_view(self.stop_reason),
            created: self.created,
            model: opt_bytes_view(self.model),
            input_tokens: self.input_tokens,
            output_tokens: self.output_tokens,
            cache_read_tokens: self.cache_read_tokens,
            cache_creation_tokens: self.cache_creation_tokens,
        }
    }
}

impl ExtractedStreamData {
    /// A fresh, empty record.
    pub fn new() -> (r: Self)
        ensures
            r@ == empty_data(),
    {
        let r = ExtractedStreamData {
            text: Vec::new(),
            message_id: None,
            stop_reason: None,
            created: None,
            model: None,
            input_tokens: 0,
            output_tokens: 0,
            cache_read_tokens: 0,
            cache_creation_tokens: 0,
        };
        proof {
            assert(r@.text =~= empty_data().text);
        }
        r
    }
}

/// The byte sequence, or empty when absent.
pub open spec fn opt_or_empty(o: Option<Seq<u8>>) -> Seq<u8> {
    match o {
        Some(s) => s,
        None => Seq::empty(),
    }
}

/// Text carried by the nested `delta` object: its `text`, `thinking`
/// and `partial_json` fields, in that order.
pub open spec fn delta_text(ev: JsonV) -> Seq<u8> {
    match jv_get(ev, k_delta()) {
        Some(d) => opt_or_empty(jv_str_at(d, k_text())) + opt_or_empty(jv_str_at(d, k_thinking()))
            + opt_or_empty(jv_str_at(d, k_partial_json())),
        None => Seq::empty(),
    }
}

/// The `delta.content` string of one element of a `choices` list.
pub open spec fn choice_text(c: JsonV) -> Seq<u8> {
    opt_or_empty(jv_str_at2(c, k_delta(), k_content()))
}

/// Text carried by the elements of a `choices` list, in order.
pub open spec fn choices_text_seq(cs: Seq<JsonV>) -> Seq<u8>
    decreases cs.len(),
{
    if cs.len() == 0 {
        Seq::empty()
    } else {
        choice_text(cs[0]) + choices_text_seq(cs.drop_first())
    }
}

/// Text carried by the `choices` list of an event.
pub open spec fn choices_text(ev: JsonV) -> Seq<u8> {
    match jv_get(ev, k_choices()) {
        Some(c) => match jv_arr(c) {
            Some(cs) => choices_text_seq(cs),
            None => Seq::empty(),
        },
        None => Seq::empty(),
    }
}

/// The `text` and `thinking` fields of one element of a content list.
pub open spec fn content_item_text(it: JsonV) -> Seq<u8> {
    opt_or_empty(jv_str_at(it, k_text())) + opt_or_empty(jv_str_at(it, k_thinking()))
}

/// Text carried by the elements of a content list, in order.
pub open spec fn content_items_text(items: Seq<JsonV>) -> Seq<u8>
    decreases items.len(),
{
    if items.len() == 0 {
        Seq::empty()
    } else {
        content_item_text(items[0]) + content_items_text(items.drop_first())
    }
}

/// Text carried by the top-level `content` field: its elements when it
/// is a list, its payload when it is a string.
pub open spec fn content_text(ev: JsonV) -> Seq<u8> {
    match jv_get(ev, k_content()) {
        Some(c) => match jv_arr(c) {
            Some(items) => content_items_text(items),
            None => opt_or_empty(jv_str(c)),
        },
        None => Seq::empty(),
    }
}

/// Text carried by the top-level `text` field.
pub open spec fn top_text(ev: JsonV) -> Seq<u8> {
    opt_or_empty(jv_str_at(ev, k_text()))
}

/// Text carried by a content list nested in a `message` object.
pub open spec fn message_content_text(ev: JsonV) -> Seq<u8> {
    match jv_get2(ev, k_message(), k_content()) {
        Some(c) => match jv_arr(c) {
            Some(items) => content_items_text(items),
            None => Seq::empty(),
        },
        None => Seq::empty(),
    }
}

/// All text carried by one event: every known shape, scanned in a fixed
/// order, all matches appended.
pub open spec fn event_text(ev: JsonV) -> Seq<u8> {
    delta_text(ev) + choices_text(ev) + top_text(ev) + content_text(ev) + message_content_text(ev)
}

/// The first element of a `choices` list carries a `delta.content`
/// field (of any type).
pub open spec fn first_choice_delta_content(ev: JsonV) -> bool {
    match jv_get(ev, k_choices()) {
        Some(c) => match jv_arr(c) {
            Some(cs) => cs.len() > 0 && (match jv_get(cs[0], k_delta()) {
                Some(d) => jv_get(d, k_content()) is Some,
                None => false,
            }),
            None => false,
        },
        None => false,
    }
}

/// An event that carries user-visible content: an explicitly typed
/// content or thinking delta, or — for the header-less dialect — a
/// first `choices` element with a nested `delta.content` field.
pub open spec fn is_content_event(ev: JsonV) -> bool {
    ||| jv_str_at(ev, k_type()) == Some(k_content_block_delta())
    ||| jv_str_at(ev, k_type()) == Some(k_thinking_delta())
    ||| (jv_str_at(ev, k_type()) is None && first_choice_delta_content(ev))
}

/// Keep `cur`, or take `cand` when `cur` is still unset.
pub open spec fn keep_or(cur: Option<Seq<u8>>, cand: Option<Seq<u8>>) -> Option<Seq<u8>> {
    if cur is None {
        cand
    } else {
        cur
    }
}

/// Keep `cur`, or take `cand` when `cur` is still unset.
pub open spec fn keep_or_i64(cur: Option<i64>, cand: Option<i64>) -> Option<i64> {
    if cur is None {
        cand
    } else {
        cur
    }
}

/// Keep `cur`, or take the low 32 bits of `cand` when `cur` is zero.
pub open spec fn keep_or_u32(cur: u32, cand: u64) -> u32 {
    if cur == 0 {
        cand as u32
    } else {
        cur
    }
}

/// The `u64` payload of `path.k`, zero when any step is absent.
pub open spec fn jv_u64_or0_at2(j: JsonV, k1: Seq<u8>, k2: Seq<u8>) -> u64 {
    match jv_get(j, k1) {
        Some(x) => jv_u64_or0_at(x, k2),
        None => 0,
    }
}

/// Metadata taken from a `message_start` event: id, creation time and
/// model under `message`, and the input/cache counters under
/// `message.usage`.
pub open spec fn meta_message_start(d: StreamDataV, ev: JsonV) -> StreamDataV {
    StreamDataV {
        message_id: keep_or(d.message_id, jv_str_at2(ev, k_message(), k_id())),
        created: keep_or_i64(d.created, (match jv_get2(ev, k_message(), k_created()) {
            Some(x) => jv_i64(x),
            None => None,
        })),
        model: keep_or(d.model, jv_str_at2(ev, k_message(), k_model())),
        input_tokens: keep_or_u32(d.input_tokens, (match jv_get2(ev, k_message(), k_usage()) {
            Some(u) => jv_u64_or0_at(u, k_input_tokens()),
            None => 0,
        })),
        cache_read_tokens: keep_or_u32(d.cache_read_tokens, (match jv_get2(ev, k_message(), k_usage()) {
            Some(u) => jv_u64_or0_at(u, k_cache_read_input_tokens()),
            None => 0,
        })),
        cache_creation_tokens: keep_or_u32(d.cache_creation_tokens, (match jv_get2(ev, k_message(), k_usage()) {
            Some(u) => jv_u64_or0_at(u, k_cache_creation_input_tokens()),
            None => 0,
        })),
        ..d
    }
}

/// Metadata taken from a `content_block_start` event: the model under
/// `message`.
pub open spec fn meta_content_block_start(d: StreamDataV, ev: JsonV) -> StreamDataV {
    StreamDataV { model: keep_or(d.model, jv_str_at2(ev, k_message(), k_model())), ..d }
}

/// Metadata taken from a `message_delta` event: stop reason under
/// `delta`, model and output counter under `usage`.
pub open spec fn meta_message_delta(d: StreamDataV, ev: JsonV) -> StreamDataV {
    StreamDataV {
        stop_reason: keep_or(d.stop_reason, jv_str_at2(ev, k_delta(), k_stop_reason())),
        model: keep_or(d.model, jv_str_at2(ev, k_usage(), k_model())),
        output_tokens: keep_or_u32(d.output_tokens, jv_u64_or0_at2(ev, k_usage(), k_output_tokens())),
        ..d
    }
}

/// The `finish_reason` of the first element of the `choices` list,
/// when the list is present and non-empty.
pub open spec fn first_choice_finish_reason(ev: JsonV) -> Option<Seq<u8>> {
    match jv_get(ev, k_choices()) {
        Some(c) => match jv_arr(c) {
            Some(cs) => if cs.len() > 0 {
                jv_str_at(cs[0], k_finish_reason())
            } else {
                None
            },
            None => None,
        },
        None => None,
    }
}

/// Metadata taken from a header-less event: top-level id and creation
/// time, the first choice's finish reason, and the prompt, completion
/// and cached counters under `usage`.
pub open spec fn meta_headerless(d: StreamDataV, ev: JsonV) -> StreamDataV {
    StreamDataV {
        message_id: keep_or(d.message_id, jv_str_at(ev, k_id())),
        created: keep_or_i64(d.created, jv_i64_at(ev, k_created())),
        stop_reason: keep_or(d.stop_reason, first_choice_finish_reason(ev)),
        input_tokens: keep_or_u32(d.input_tokens, jv_u64_or0_at2(ev, k_usage(), k_prompt_tokens())),
        output_tokens: keep_or_u32(
            d.output_tokens,
            jv_u64_or0_at2(ev, k_usage(), k_completion_tokens()),
        ),
        cache_read_tokens: keep_or_u32(d.cache_read_tokens, (match jv_get2(ev, k_usage(), k_prompt_tokens_details()) {
            Some(p) => jv_u64_or0_at(p, k_cached_tokens()),
            None => 0,
        })),
        ..d
    }
}

/// Metadata extraction dispatched on the event's `type` tag.
pub open spec fn push_meta(d: StreamDataV, ev: JsonV) -> StreamDataV {
    let t = jv_str_at(ev, k_type());
    if t == Some(k_message_start()) {
        meta_message_start(d, ev)
    } else if t == Some(k_content_block_start()) {
        meta_content_block_start(d, ev)
    } else if t == Some(k_message_delta()) {
        meta_message_delta(d, ev)
    } else {
        meta_headerless(d, ev)
    }
}

/// One push: append the event's text, then apply its metadata.
pub open spec fn push_data(d: StreamDataV, ev: JsonV) -> StreamDataV {
    push_meta(StreamDataV { text: d.text + event_text(ev), ..d }, ev)
}

proof fn lemma_choices_text_snoc(s: Seq<JsonV>, x: JsonV)
    ensures
        choices_text_seq(s.push(x)) == choices_text_seq(s) + choice_text(x),
    decreases s.len(),
{
    if s.len() == 0 {
        assert(s.push(x).drop_first() =~= Seq::<JsonV>::empty());
        assert(s.push(x)[0] == x);
        assert(choices_text_seq(s.push(x)) == choice_text(x) + choices_text_seq(
            Seq::<JsonV>::empty(),
        ));
        assert(choices_text_seq(s.push(x)) =~= choices_text_seq(s) + choice_text(x));
    } else {
        assert(s.push(x).drop_first() =~= s.drop_first().push(x));
        lemma_choices_text_snoc(s.drop_first(), x);
        assert(choices_text_seq(s.push(x)) =~= choices_text_seq(s) + choice_text(x));
    }
}

proof fn lemma_content_items_text_snoc(s: Seq<JsonV>, x: JsonV)
    ensures
        content_items_text(s.push(x)) == content_items_text(s) + content_item_text(x),
    decreases s.len(),
{
    if s.len() == 0 {
        assert(s.push(x).drop_first() =~= Seq::<JsonV>::empty());
        assert(s.push(x)[0] == x);
        assert(content_items_text(s.push(x)) == content_item_text(x) + content_items_text(
            Seq::<JsonV>::empty(),
        ));
        assert(content_items_text(s.push(x)) =~= content_items_text(s) + content_item_text(x));
    } else {
        assert(s.push(x).drop_first() =~= s.drop_first().push(x));
        lemma_content_items_text_snoc(s.drop_first(), x);
        assert(content_items_text(s.push(x)) =~= content_items_text(s) + content_item_text(x));
    }
}

/// Appends an optional buffer.
fn append_opt(text: &mut Vec<u8>, s: Option<&Vec<u8>>)
    ensures
        final(text)@ == old(text)@ + (match s {
            Some(v) => v@,
            None => Seq::empty(),
        }),
{
    match s {
        Some(v) => text.extend_from_slice(v.as_slice()),
        None => {
            proof {
                assert(text@ =~= text@ + Seq::<u8>::empty());
            }
        },
    }
}

fn append_delta_text(text: &mut Vec<u8>, ev: &Json)
    ensures
        final(text)@ == old(text)@ + delta_text(ev@),
{
    let kd = kv_delta();
    match ev.get(kd.as_slice()) {
        Some(d) => {
            let kt = kv_text();
            let kth = kv_thinking();
            let kpj = kv_partial_json();
            append_opt(text, d.str_at(kt.as_slice()));
            append_opt(text, d.str_at(kth.as_slice()));
            append_opt(text, d.str_at(kpj.as_slice()));
            proof {
                assert(text@ =~= old(text)@ + delta_text(ev@));
            }
        },
        None => {
            proof {
                assert(text@ =~= old(text)@ + delta_text(ev@));
            }
        },
    }
}

fn append_choices_text(text: &mut Vec<u8>, ev: &Json)
    ensures
        final(text)@ == old(text)@ + choices_text(ev@),
{
    let kc = kv_choices();
    match ev.get(kc.as_slice()) {
        Some(c) => match c.as_array() {
            Some(arr) => {
                let ghost cs = jview_seq(arr@);
                proof {
                    lemma_jview_seq(arr@);
                }
                let kd = kv_delta();
                let kco = kv_content();
                let mut i: usize = 0;
                while i < arr.len()
                    invariant
                        i <= arr@.len(),
                        cs == jview_seq(arr@),
                        cs.len() == arr@.len(),
                        kd@ == k_delta(),
                        kco@ == k_content(),
                        text@ == old(text)@ + choices_text_seq(cs.take(i as int)),
                    decreases arr@.len() - i,
                {
                    proof {
                        lemma_jview_seq(arr@);
                    }
                    let ch = &arr[i];
                    append_opt(text, ch.str_at2(kd.as_slice(), kco.as_slice()));
                    proof {
                        assert(cs.take(i as int).push(cs[i as int]) =~= cs.take(i as int + 1));
                        lemma_choices_text_snoc(cs.take(i as int), cs[i as int]);
                        assert(text@ =~= old(text)@ + choices_text_seq(cs.take(i as int + 1)));
                    }
                    i += 1;
                }
                proof {
                    assert(cs.take(cs.len() as int) =~= cs);
                }
            },
            None => {
                proof {
                    assert(text@ =~= old(text)@ + choices_text(ev@));
                }
            },
        },
        None => {
            proof {
                assert(text@ =~= old(text)@ + choices_text(ev@));
            }
        },
    }
}

fn append_content_items_text(text: &mut Vec<u8>, arr: &Vec<Json>)
    ensures
        final(text)@ == old(text)@ + content_items_text(jview_seq(arr@)),
{
    let ghost items = jview_seq(arr@);
    proof {
        lemma_jview_seq(arr@);
    }
    let kt = kv_text();
    let kth = kv_thinking();
    let mut i: usize = 0;
    while i < arr.len()
        invariant
            i <= arr@.len(),
            items == jview_seq(arr@),
            items.len() == arr@.len(),
            kt@ == k_text(),
            kth@ == k_thinking(),
            text@ == old(text)@ + content_items_text(items.take(i as int)),
        decreases arr@.len() - i,
    {
        proof {
            lemma_jview_seq(arr@);
        }
        let it = &arr[i];
        append_opt(text, it.str_at(kt.as_slice()));
        append_opt(text, it.str_at(kth.as_slice()));
        proof {
            assert(items.take(i as int).push(items[i as int]) =~= items.take(i as int + 1));
            lemma_content_items_text_snoc(items.take(i as int), items[i as int]);
            assert(text@ =~= old(text)@ + content_items_text(items.take(i as int + 1)));
        }
        i += 1;
    }
    proof {
        assert(items.take(items.len() as int) =~= items);
    }
}

fn append_top_text(text: &mut Vec<u8>, ev: &Json)
    ensures
        final(text)@ == old(text)@ + top_text(ev@),
{
    let kt = kv_text();
    append_opt(text, ev.str_at(kt.as_slice()));
}

fn append_content_text(text: &mut Vec<u8>, ev: &Json)
    ensures
        final(text)@ == old(text)@ + content_text(ev@),
{
    let kc = kv_content();
    match ev.get(kc.as_slice()) {
        Some(c) => match c.as_array() {
            Some(arr) => append_content_items_text(text, arr),
            None => append_opt(text, c.as_str_bytes()),
        },
        None => {
            proof {
                assert(text@ =~= old(text)@ + content_text(ev@));
            }
        },
    }
}

fn append_message_content_text(text: &mut Vec<u8>, ev: &Json)
    ensures
        final(text)@ == old(text)@ + message_content_text(ev@),
{
    let km = kv_message();
    let kc = kv_content();
    match ev.get2(km.as_slice(), kc.as_slice()) {
        Some(c) => match c.as_array() {
            Some(arr) => append_content_items_text(text, arr),
            None => {
                proof {
                    assert(text@ =~= old(text)@ + message_content_text(ev@));
                }
            },
        },
        None => {
            proof {
                assert(text@ =~= old(text)@ + message_content_text(ev@));
            }
        },
    }
}

fn append_event_text(text: &mut Vec<u8>, ev: &Json)
    ensures
        final(text)@ == old(text)@ + event_text(ev@),
{
    append_delta_text(text, ev);
    append_choices_text(text, ev);
    append_top_text(text, ev);
    append_content_text(text, ev);
    append_message_content_text(text, ev);
    proof {
        assert(text@ =~= old(text)@ + event_text(ev@));
    }
}

fn first_choice_delta_content_exec(ev: &Json) -> (r: bool)
    ensures
        r == first_choice_delta_content(ev@),
{
    let kc = kv_choices();
    match ev.get(kc.as_slice()) {
        Some(c) => match c.as_array() {
            Some(arr) => {
                if arr.len() > 0 {
                    proof {
                        lemma_jview_seq(arr@);
                    }
                    let c0 = &arr[0];
                    let kd = kv_delta();
                    let kco = kv_content();
                    match c0.get2(kd.as_slice(), kco.as_slice()) {
                        Some(_) => true,
                        None => false,
                    }
                } else {
                    false
                }
            },
            None => false,
        },
        None => false,
    }
}

fn is_content_event_exec(ev: &Json) -> (r: bool)
    ensures
        r == is_content_event(ev@),
{
    let kt = kv_type();
    match ev.str_at(kt.as_slice()) {
        Some(t) => {
            let a = kv_content_block_delta();
            if bytes_eq(t.as_slice(), a.as_slice()) {
                true
            } else {
                let b = kv_thinking_delta();
                bytes_eq(t.as_slice(), b.as_slice())
            }
        },
        None => first_choice_delta_content_exec(ev),
    }
}

/// Takes `cand` only while `cur` is unset.
fn set_opt_bytes(cur: &mut Option<Vec<u8>>, cand: Option<&Vec<u8>>)
    ensures
        opt_bytes_view(*final(cur)) == keep_or(opt_bytes_view(*old(cur)), (match cand {
            Some(v) => Some(v@),
            None => None,
        })),
{
    if cur.is_none() {
        match cand {
            Some(v) => {
                *cur = Some(copy_bytes(v));
            },
            None => {
                *cur = None;
            },
        }
    }
}

/// Takes `cand` only while `cur` is unset.
fn set_opt_i64(cur: &mut Option<i64>, cand: Option<i64>)
    ensures
        *final(cur) == keep_or_i64(*old(cur), cand),
{
    if cur.is_none() {
        *cur = cand;
    }
}

/// Takes the low 32 bits of `cand` only while `cur` is zero.
fn set_counter(cur: &mut u32, cand: u64)
    ensures
        *final(cur) == keep_or_u32(*old(cur), cand),
{
    if *cur == 0 {
        *cur = #[verifier::truncate] (cand as u32);
    }
}

fn apply_message_start(d: &mut ExtractedStreamData, ev: &Json)
    ensures
        final(d)@ == meta_message_start(old(d)@, ev@),
{
    let km = kv_message();
    let kid = kv_id();
    set_opt_bytes(&mut d.message_id, ev.str_at2(km.as_slice(), kid.as_slice()));
    let kcr = kv_created();
    let cand_created: Option<i64> = match ev.get2(km.as_slice(), kcr.as_slice()) {
        Some(x) => x.as_int(),
        None => None,
    };
    set_opt_i64(&mut d.created, cand_created);
    let kmo = kv_model();
    set_opt_bytes(&mut d.model, ev.str_at2(km.as_slice(), kmo.as_slice()));
    let ku = kv_usage();
    match ev.get2(km.as_slice(), ku.as_slice()) {
        Some(u) => {
            let ki = kv_input_tokens();
            set_counter(&mut d.input_tokens, u.u64_or0_at(ki.as_slice()));
            let kcrd = kv_cache_read_input_tokens();
            set_counter(&mut d.cache_read_tokens, u.u64_or0_at(kcrd.as_slice()));
            let kcc = kv_cache_creation_input_tokens();
            set_counter(&mut d.cache_creation_tokens, u.u64_or0_at(kcc.as_slice()));
        },
        None => {
            set_counter(&mut d.input_tokens, 0);
            set_counter(&mut d.cache_read_tokens, 0);
            set_counter(&mut d.cache_creation_tokens, 0);
        },
    }
}

fn apply_content_block_start(d: &mut ExtractedStreamData, ev: &Json)
    ensures
        final(d)@ == meta_content_block_start(old(d)@, ev@),
{
    let km = kv_message();
    let kmo = kv_model();
    set_opt_bytes(&mut d.model, ev.str_at2(km.as_slice(), kmo.as_slice()));
}

fn apply_message_delta(d: &mut ExtractedStreamData, ev: &Json)
    ensures
        final(d)@ == meta_message_delta(old(d)@, ev@),
{
    let kd = kv_delta();
    let ksr = kv_stop_reason();
    set_opt_bytes(&mut d.stop_reason, ev.str_at2(kd.as_slice(), ksr.as_slice()));
    let ku = kv_usage();
    let kmo = kv_model();
    set_opt_bytes(&mut d.model, ev.str_at2(ku.as_slice(), kmo.as_slice()));
    let cand_out: u64 = match ev.get(ku.as_slice()) {
        Some(u) => {
            let ko = kv_output_tokens();
            u.u64_or0_at(ko.as_slice())
        },
        None => 0,
    };
    set_counter(&mut d.output_tokens, cand_out);
}

fn first_choice_finish_reason_exec<'a>(ev: &'a Json) -> (r: Option<&'a Vec<u8>>)
    ensures
        (match r {
            Some(s) => first_choice_finish_reason(ev@) == Some(s@),
            None => first_choice_finish_reason(ev@) is None,
        }),
{
    let kc = kv_choices();
    match ev.get(kc.as_slice()) {
        Some(c) => match c.as_array() {
            Some(arr) => {
                if arr.len() > 0 {
                    proof {
                        lemma_jview_seq(arr@);
                    }
                    let c0 = &arr[0];
                    let kf = kv_finish_reason();
                    c0.str_at(kf.as_slice())
                } else {
                    None
                }
            },
            None => None,
        },
        None => None,
    }
}

fn apply_headerless(d: &mut ExtractedStreamData, ev: &Json)
    ensures
        final(d)@ == meta_headerless(old(d)@, ev@),
{
    let kid = kv_id();
    set_opt_bytes(&mut d.message_id, ev.str_at(kid.as_slice()));
    let kcr = kv_created();
    set_opt_i64(&mut d.created, ev.i64_at(kcr.as_slice()));
    set_opt_bytes(&mut d.stop_reason, first_choice_finish_reason_exec(ev));
    let ku = kv_usage();
    match ev.get(ku.as_slice()) {
        Some(u) => {
            let kp = kv_prompt_tokens();
            set_counter(&mut d.input_tokens, u.u64_or0_at(kp.as_slice()));
            let kco = kv_completion_tokens();
            set_counter(&mut d.output_tokens, u.u64_or0_at(kco.as_slice()));
            let kpd = kv_prompt_tokens_details();
            let cand_cached: u64 = match u.get(kpd.as_slice()) {
                Some(p) => {
                    let kct = kv_cached_tokens();
                    p.u64_or0_at(kct.as_slice())
                },
                None => 0,
            };
            set_counter(&mut d.cache_read_tokens, cand_cached);
        },
        None => {
            set_counter(&mut d.input_tokens, 0);
            set_counter(&mut d.output_tokens, 0);
            set_counter(&mut d.cache_read_tokens, 0);
        },
    }
}

fn apply_event_meta(d: &mut ExtractedStreamData, ev: &Json)
    ensures
        final(d)@ == push_meta(old(d)@, ev@),
{
    let kt = kv_type();
    let mut is_ms: bool = false;
    let mut is_cbs: bool = false;
    let mut is_md: bool = false;
    match ev.str_at(kt.as_slice()) {
        Some(t) => {
            let a = kv_message_start();
            is_ms = bytes_eq(t.as_slice(), a.as_slice());
            let b = kv_content_block_start();
            is_cbs = bytes_eq(t.as_slice(), b.as_slice());
            let c = kv_message_delta();
            is_md = bytes_eq(t.as_slice(), c.as_slice());
        },
        None => {},
    }
    if is_ms {
        apply_message_start(d, ev);
    } else if is_cbs {
        apply_content_block_start(d, ev);
    } else if is_md {
        apply_message_delta(d, ev);
    } else {
        apply_headerless(d, ev);
    }
}

/// Model of the collector.
pub struct CollectorV {
    pub data: StreamDataV,
    pub first_token_ms: Option<u64>,
    pub response_body: Option<Seq<u8>>,
    pub finished: bool,
}

/// A fresh collector: empty data, no first-content time, no body, not
/// finished.
pub open spec fn collector_init() -> CollectorV {
    CollectorV { data: empty_data(), first_token_ms: None, response_body: None, finished: false }
}

/// One push: the first-content time is recorded the first time a
/// content event is seen, and the data is updated per `push_data`.
pub open spec fn collector_push(c: CollectorV, ev: JsonV, now_ms: u64) -> CollectorV {
    CollectorV {
        data: push_data(c.data, ev),
        first_token_ms: if is_content_event(ev) && c.first_token_ms is None {
            Some(now_ms)
        } else {
            c.first_token_ms
        },
        ..c
    }
}

/// Collector of usage data out of the event side channel. It owns the
/// accumulated record; the caller supplies elapsed time, and finalize
/// hands the record out as a value, exactly once.
pub struct SseUsageCollector {
    data: ExtractedStreamData,
    first_token_ms: Option<u64>,
    response_body: Option<Vec<u8>>,
    finished: bool,
}

impl View for SseUsageCollector {
    type V = CollectorV;

    closed spec fn view(&self) -> CollectorV {
        CollectorV {
            data: self.data@,
            first_token_ms: self.first_token_ms,
            response_body: (match self.response_body {
                Some(v) => Some(v@),
                None => None,
            }),
            finished: self.finished,
        }
    }
}

impl SseUsageCollector {
    /// A fresh collector.
    pub fn new() -> (r: Self)
        ensures
            r@ == collector_init(),
    {
        SseUsageCollector {
            data: ExtractedStreamData::new(),
            first_token_ms: None,
            response_body: None,
            finished: false,
        }
    }

    /// Feeds one event: records the first-content time on the first
    /// content-carrying event, appends all text the event carries, and
    /// applies the metadata rules, each field first-non-empty-wins.
    pub fn push(&mut self, event: &Json, now_ms: u64)
        ensures
            final(self)@ == collector_push(old(self)@, event@, now_ms),
    {
        if is_content_event_exec(event) {
            if self.first_token_ms.is_none() {
                self.first_token_ms = Some(now_ms);
            }
        }
        append_event_text(&mut self.data.text, event);
        apply_event_meta(&mut self.data, event);
    }

    /// Stores the raw response-body snapshot, overwriting any earlier
    /// one; called from the terminal path.
    pub fn set_response_body(&mut self, body: Vec<u8>)
        ensures
            final(self)@ == (CollectorV { response_body: Some(body@), ..old(self)@ }),
    {
        self.response_body = Some(body);
    }

    /// Finalize: at most once per collector. The first call takes the
    /// accumulated record out and returns the completion value; every
    /// later call returns nothing and changes nothing.
    pub fn finish(&mut self, now_ms: u64) -> (r: Option<StreamCompletion>)
        ensures
            final(self)@ == finish_spec(old(self)@, now_ms).0,
            (match r {
                Some(c) => finish_spec(old(self)@, now_ms).1 == Some(c@),
                None => finish_spec(old(self)@, now_ms).1 is None,
            }),
    {
        if self.finished {
            return None;
        }
        self.finished = true;
        let mut data = ExtractedStreamData::new();
        core::mem::swap(&mut data, &mut self.data);
        let mut body: Option<Vec<u8>> = None;
        core::mem::swap(&mut body, &mut self.response_body);
        let combined_output = build_final_body_from_data(&data);
        Some(
            StreamCompletion {
                data,
                first_token_ms: self.first_token_ms,
                latency_ms: now_ms,
                response_body: body,
                combined_output,
            },
        )
    }

    /// All text carried by a whole event list, in order.
    pub fn extract_text_from_events(events: &Vec<Json>) -> (r: Vec<u8>)
        ensures
            r@ == events_text(jview_seq(events@)),
    {
        let ghost evs = jview_seq(events@);
        proof {
            lemma_jview_seq(events@);
        }
        let mut text: Vec<u8> = Vec::new();
        let mut i: usize = 0;
        while i < events.len()
            invariant
                i <= events@.len(),
                evs == jview_seq(events@),
                evs.len() == events@.len(),
                text@ == events_text(evs.take(i as int)),
            decreases events@.len() - i,
        {
            proof {
                lemma_jview_seq(events@);
            }
            let ev = &events[i];
            append_event_text(&mut text, ev);
            proof {
                assert(evs.take(i as int).push(evs[i as int]) =~= evs.take(i as int + 1));
                lemma_events_text_snoc(evs.take(i as int), evs[i as int]);
                assert(text@ =~= events_text(evs.take(i as int + 1)));
            }
            i += 1;
        }
        proof {
            assert(evs.take(evs.len() as int) =~= evs);
        }
        text
    }

    /// Text extracted out of a whole event list, wrapped in the
    /// synthesized record shape; nothing when no text was found.
    pub fn build_final_response_body(events: &Vec<Json>) -> (r: Option<Vec<u8>>)
        ensures
            events_text(jview_seq(events@)).len() == 0 <==> r is None,
            (match r {
                Some(v) => v@ == crate::fmt::events_body_spec(
                    events_text(jview_seq(events@)),
                    events@.len(),
                ),
                None => true,
            }),
    {
        let text = Self::extract_text_from_events(events);
        if text.len() == 0 {
            return None;
        }
        Some(crate::fmt::build_events_body(text.as_slice(), events.len() as u64))
    }

    /// The message id, stop reason and creation time found in a whole
    /// event list, each first-non-empty-wins.
    pub fn extract_metadata_from_events(events: &Vec<Json>) -> (r: (
        Option<Vec<u8>>,
        Option<Vec<u8>>,
        Option<i64>,
    ))
        ensures
            (opt_bytes_view(r.0), opt_bytes_view(r.1), r.2) == events_meta(jview_seq(events@)),
    {
        let ghost evs = jview_seq(events@);
        proof {
            lemma_jview_seq(events@);
        }
        let mut message_id: Option<Vec<u8>> = None;
        let mut stop_reason: Option<Vec<u8>> = None;
        let mut created: Option<i64> = None;
        let mut i: usize = 0;
        while i < events.len()
            invariant
                i <= events@.len(),
                evs == jview_seq(events@),
                evs.len() == events@.len(),
                (opt_bytes_view(message_id), opt_bytes_view(stop_reason), created)
                    == events_meta_from((None, None, None), evs.take(i as int)),
            decreases events@.len() - i,
        {
            proof {
                lemma_jview_seq(events@);
            }
            let ev = &events[i];
            apply_meta3(&mut message_id, &mut stop_reason, &mut created, ev);
            proof {
                assert(evs.take(i as int).push(evs[i as int]) =~= evs.take(i as int + 1));
                lemma_events_meta_snoc((None, None, None), evs.take(i as int), evs[i as int]);
            }
            i += 1;
        }
        proof {
            assert(evs.take(evs.len() as int) =~= evs);
        }
        (message_id, stop_reason, created)
    }
}

/// The completion value handed out by the one successful finalize.
pub struct StreamCompletionV {
    pub data: StreamDataV,
    pub first_token_ms: Option<u64>,
    pub latency_ms: u64,
    pub response_body: Option<Seq<u8>>,
    pub combined_output: Option<Seq<u8>>,
}

/// What finalize hands to the completion path: the extracted record,
/// the two latencies, the raw body snapshot and the synthesized body.
pub struct StreamCompletion {
    /// The accumulated record, moved out of the collector.
    pub data: ExtractedStreamData,
    /// Time to first content, when one was seen.
    pub first_token_ms: Option<u64>,
    /// Total latency, as supplied by the caller at finalize.
    pub latency_ms: u64,
    /// Raw response-body snapshot, when one was committed.
    pub response_body: Option<Vec<u8>>,
    /// Synthesized record built from the extracted data.
    pub combined_output: Option<Vec<u8>>,
}

impl View for StreamCompletion {
    type V = StreamCompletionV;

    open spec fn view(&self) -> StreamCompletionV {
        StreamCompletionV {
            data: self.data@,
            first_token_ms: self.first_token_ms,
            latency_ms: self.latency_ms,
            response_body: opt_bytes_view(self.response_body),
            combined_output: opt_bytes_view(self.combined_output),
        }
    }
}

/// The synthesized record of a finished stream, when any text was
/// extracted.
pub open spec fn combined_output_spec(d: StreamDataV) -> Option<Seq<u8>> {
    if d.text.len() == 0 {
        None
    } else {
        Some(final_body_spec(d))
    }
}

/// One finalize step: a no-op on a finished collector; otherwise the
/// record and body snapshot are taken out, the collector is marked
/// finished, and the completion value is produced.
pub open spec fn finish_spec(c: CollectorV, now_ms: u64) -> (CollectorV, Option<
    StreamCompletionV,
>) {
    if c.finished {
        (c, None)
    } else {
        (
            CollectorV { data: empty_data(), response_body: None, finished: true, ..c },
            Some(
                StreamCompletionV {
                    data: c.data,
                    first_token_ms: c.first_token_ms,
                    latency_ms: now_ms,
                    response_body: c.response_body,
                    combined_output: combined_output_spec(c.data),
                },
            ),
        )
    }
}

/// Finalize fires at most once: a fresh collector's first finalize
/// produces the completion value, and any finalize after a finalize
/// produces nothing, whatever the order of the two calls' timestamps.
pub proof fn lemma_finish_at_most_once(c: CollectorV, n1: u64, n2: u64)
    ensures
        !c.finished ==> finish_spec(c, n1).1 is Some,
        finish_spec(finish_spec(c, n1).0, n2).1 is None,
{
}

/// A whole event sequence pushed in order.
pub open spec fn push_data_seq(d: StreamDataV, evs: Seq<JsonV>) -> StreamDataV
    decreases evs.len(),
{
    if evs.len() == 0 {
        d
    } else {
        push_data_seq(push_data(d, evs[0]), evs.drop_first())
    }
}

/// What one event supplies for the input-token counter.
pub open spec fn input_supply(ev: JsonV) -> u64 {
    let t = jv_str_at(ev, k_type());
    if t == Some(k_message_start()) {
        match jv_get2(ev, k_message(), k_usage()) {
            Some(u) => jv_u64_or0_at(u, k_input_tokens()),
            None => 0,
        }
    } else if t == Some(k_content_block_start()) || t == Some(k_message_delta()) {
        0
    } else {
        jv_u64_or0_at2(ev, k_usage(), k_prompt_tokens())
    }
}

/// What one event supplies for the output-token counter.
pub open spec fn output_supply(ev: JsonV) -> u64 {
    let t = jv_str_at(ev, k_type());
    if t == Some(k_message_start()) || t == Some(k_content_block_start()) {
        0
    } else if t == Some(k_message_delta()) {
        jv_u64_or0_at2(ev, k_usage(), k_output_tokens())
    } else {
        jv_u64_or0_at2(ev, k_usage(), k_completion_tokens())
    }
}

/// What one event supplies for the cache-read counter.
pub open spec fn cache_read_supply(ev: JsonV) -> u64 {
    let t = jv_str_at(ev, k_type());
    if t == Some(k_message_start()) {
        match jv_get2(ev, k_message(), k_usage()) {
            Some(u) => jv_u64_or0_at(u, k_cache_read_input_tokens()),
            None => 0,
        }
    } else if t == Some(k_content_block_start()) || t == Some(k_message_delta()) {
        0
    } else {
        match jv_get2(ev, k_usage(), k_prompt_tokens_details()) {
            Some(p) => jv_u64_or0_at(p, k_cached_tokens()),
            None => 0,
        }
    }
}

/// What one event supplies for the cache-creation counter.
pub open spec fn cache_creation_supply(ev: JsonV) -> u64 {
    let t = jv_str_at(ev, k_type());
    if t == Some(k_message_start()) {
        match jv_get2(ev, k_message(), k_usage()) {
            Some(u) => jv_u64_or0_at(u, k_cache_creation_input_tokens()),
            None => 0,
        }
    } else {
        0
    }
}

/// The 32-bit values an event sequence supplies for a counter.
pub open spec fn input_supplies(evs: Seq<JsonV>) -> Seq<u32> {
    evs.map_values(|ev: JsonV| input_supply(ev) as u32)
}

/// The 32-bit values an event sequence supplies for a counter.
pub open spec fn output_supplies(evs: Seq<JsonV>) -> Seq<u32> {
    evs.map_values(|ev: JsonV| output_supply(ev) as u32)
}

/// The 32-bit values an event sequence supplies for a counter.
pub open spec fn cache_read_supplies(evs: Seq<JsonV>) -> Seq<u32> {
    evs.map_values(|ev: JsonV| cache_read_supply(ev) as u32)
}

/// The 32-bit values an event sequence supplies for a counter.
pub open spec fn cache_creation_supplies(evs: Seq<JsonV>) -> Seq<u32> {
    evs.map_values(|ev: JsonV| cache_creation_supply(ev) as u32)
}

/// The first non-zero value of a sequence, zero when there is none.
pub open spec fn first_nonzero(s: Seq<u32>) -> u32
    decreases s.len(),
{
    if s.len() == 0 {
        0
    } else if s[0] != 0 {
        s[0]
    } else {
        first_nonzero(s.drop_first())
    }
}

proof fn lemma_push_counters(d: StreamDataV, ev: JsonV)
    ensures
        push_data(d, ev).input_tokens == keep_or_u32(d.input_tokens, input_supply(ev)),
        push_data(d, ev).output_tokens == keep_or_u32(d.output_tokens, output_supply(ev)),
        push_data(d, ev).cache_read_tokens == keep_or_u32(d.cache_read_tokens, cache_read_supply(ev)),
        push_data(d, ev).cache_creation_tokens == keep_or_u32(
            d.cache_creation_tokens,
            cache_creation_supply(ev),
        ),
{
}

/// Each of the four token counters, after any event sequence pushed
/// into a record whose counter is still zero, equals the value of the
/// first event that supplies a non-zero 32-bit value for it, in
/// arrival order; later events never override an already-set counter.
pub proof fn lemma_counter_first_nonzero_wins(d: StreamDataV, evs: Seq<JsonV>)
    ensures
        d.input_tokens == 0 ==> push_data_seq(d, evs).input_tokens == first_nonzero(
            input_supplies(evs),
        ),
        d.output_tokens == 0 ==> push_data_seq(d, evs).output_tokens == first_nonzero(
            output_supplies(evs),
        ),
        d.cache_read_tokens == 0 ==> push_data_seq(d, evs).cache_read_tokens == first_nonzero(
            cache_read_supplies(evs),
        ),
        d.cache_creation_tokens == 0 ==> push_data_seq(d, evs).cache_creation_tokens
            == first_nonzero(cache_creation_supplies(evs)),
        d.input_tokens != 0 ==> push_data_seq(d, evs).input_tokens == d.input_tokens,
        d.output_tokens != 0 ==> push_data_seq(d, evs).output_tokens == d.output_tokens,
        d.cache_read_tokens != 0 ==> push_data_seq(d, evs).cache_read_tokens == d.cache_read_tokens,
        d.cache_creation_tokens != 0 ==> push_data_seq(d, evs).cache_creation_tokens
            == d.cache_creation_tokens,
    decreases evs.len(),
{
    if evs.len() > 0 {
        let d1 = push_data(d, evs[0]);
        lemma_push_counters(d, evs[0]);
        lemma_counter_first_nonzero_wins(d1, evs.drop_first());
        assert(input_supplies(evs).drop_first() =~= input_supplies(evs.drop_first()));
        assert(output_supplies(evs).drop_first() =~= output_supplies(evs.drop_first()));
        assert(cache_read_supplies(evs).drop_first() =~= cache_read_supplies(evs.drop_first()));
        assert(cache_creation_supplies(evs).drop_first() =~= cache_creation_supplies(
            evs.drop_first(),
        ));
        assert(input_supplies(evs)[0] == input_supply(evs[0]) as u32);
        assert(output_supplies(evs)[0] == output_supply(evs[0]) as u32);
        assert(cache_read_supplies(evs)[0] == cache_read_supply(evs[0]) as u32);
        assert(cache_creation_supplies(evs)[0] == cache_creation_supply(evs[0]) as u32);
    }
}

/// All text carried by an event sequence, in order.
pub open spec fn events_text(evs: Seq<JsonV>) -> Seq<u8>
    decreases evs.len(),
{
    if evs.len() == 0 {
        Seq::empty()
    } else {
        event_text(evs[0]) + events_text(evs.drop_first())
    }
}

proof fn lemma_events_text_snoc(s: Seq<JsonV>, x: JsonV)
    ensures
        events_text(s.push(x)) == events_text(s) + event_text(x),
    decreases s.len(),
{
    if s.len() == 0 {
        assert(s.push(x).drop_first() =~= Seq::<JsonV>::empty());
        assert(s.push(x)[0] == x);
        assert(events_text(s.push(x)) == event_text(x) + events_text(Seq::<JsonV>::empty()));
        assert(events_text(s.push(x)) =~= events_text(s) + event_text(x));
    } else {
        assert(s.push(x).drop_first() =~= s.drop_first().push(x));
        lemma_events_text_snoc(s.drop_first(), x);
        assert(events_text(s.push(x)) =~= events_text(s) + event_text(x));
    }
}

/// One step of the metadata scan over a whole event list: id and
/// creation time from a `message_start`'s nested message, the stop
/// reason from a `message_delta`'s delta, and the header-less top-level
/// fields otherwise; each component first-non-empty-wins.
pub open spec fn meta3_step(
    m: (Option<Seq<u8>>, Option<Seq<u8>>, Option<i64>),
    ev: JsonV,
) -> (Option<Seq<u8>>, Option<Seq<u8>>, Option<i64>) {
    let t = jv_str_at(ev, k_type());
    if t == Some(k_message_start()) {
        (
            keep_or(m.0, jv_str_at2(ev, k_message(), k_id())),
            m.1,
            keep_or_i64(m.2, (match jv_get2(ev, k_message(), k_created()) {
                Some(x) => jv_i64(x),
                None => None,
            })),
        )
    } else if t == Some(k_message_delta()) {
        (m.0, keep_or(m.1, jv_str_at2(ev, k_delta(), k_stop_reason())), m.2)
    } else {
        (
            keep_or(m.0, jv_str_at(ev, k_id())),
            keep_or(m.1, first_choice_finish_reason(ev)),
            keep_or_i64(m.2, jv_i64_at(ev, k_created())),
        )
    }
}

/// The metadata scan folded over an event sequence.
pub open spec fn events_meta_from(
    m: (Option<Seq<u8>>, Option<Seq<u8>>, Option<i64>),
    evs: Seq<JsonV>,
) -> (Option<Seq<u8>>, Option<Seq<u8>>, Option<i64>)
    decreases evs.len(),
{
    if evs.len() == 0 {
        m
    } else {
        events_meta_from(meta3_step(m, evs[0]), evs.drop_first())
    }
}

/// The metadata scan over an event sequence, from an empty state.
pub open spec fn events_meta(evs: Seq<JsonV>) -> (
    Option<Seq<u8>>,
    Option<Seq<u8>>,
    Option<i64>,
) {
    events_meta_from((None, None, None), evs)
}

proof fn lemma_events_meta_snoc(
    m: (Option<Seq<u8>>, Option<Seq<u8>>, Option<i64>),
    s: Seq<JsonV>,
    x: JsonV,
)
    ensures
        events_meta_from(m, s.push(x)) == meta3_step(events_meta_from(m, s), x),
    decreases s.len(),
{
    if s.len() == 0 {
        assert(s.push(x).drop_first() =~= Seq::<JsonV>::empty());
        assert(s.push(x)[0] == x);
        assert(events_meta_from(m, s.push(x)) == events_meta_from(
            meta3_step(m, x),
            Seq::<JsonV>::empty(),
        ));
        assert(events_meta_from(meta3_step(m, x), Seq::<JsonV>::empty()) == meta3_step(m, x));
        assert(events_meta_from(m, s) == m);
    } else {
        assert(s.push(x).drop_first() =~= s.drop_first().push(x));
        assert(s.push(x)[0] == s[0]);
        lemma_events_meta_snoc(meta3_step(m, s[0]), s.drop_first(), x);
        assert(events_meta_from(m, s.push(x)) == events_meta_from(
            meta3_step(m, s[0]),
            s.drop_first().push(x),
        ));
        assert(events_meta_from(m, s) == events_meta_from(meta3_step(m, s[0]), s.drop_first()));
    }
}

fn apply_meta3(
    message_id: &mut Option<Vec<u8>>,
    stop_reason: &mut Option<Vec<u8>>,
    created: &mut Option<i64>,
    ev: &Json,
)
    ensures
        (
            opt_bytes_view(*final(message_id)),
            opt_bytes_view(*final(stop_reason)),
            *final(created),
        ) == meta3_step(
            (opt_bytes_view(*old(message_id)), opt_bytes_view(*old(stop_reason)), *old(created)),
            ev@,
        ),
{
    let kt = kv_type();
    let mut is_ms: bool = false;
    let mut is_md: bool = false;
    match ev.str_at(kt.as_slice()) {
        Some(t) => {
            let a = kv_message_start();
            is_ms = bytes_eq(t.as_slice(), a.as_slice());
            let c = kv_message_delta();
            is_md = bytes_eq(t.as_slice(), c.as_slice());
        },
        None => {},
    }
    if is_ms {
        let km = kv_message();
        let kid = kv_id();
        set_opt_bytes(message_id, ev.str_at2(km.as_slice(), kid.as_slice()));
        let kcr = kv_created();
        let cand_created: Option<i64> = match ev.get2(km.as_slice(), kcr.as_slice()) {
            Some(x) => x.as_int(),
            None => None,
        };
        set_opt_i64(created, cand_created);
    } else if is_md {
        let kd = kv_delta();
        let ksr = kv_stop_reason();
        set_opt_bytes(stop_reason, ev.str_at2(kd.as_slice(), ksr.as_slice()));
    } else {
        let kid = kv_id();
        set_opt_bytes(message_id, ev.str_at(kid.as_slice()));
        set_opt_bytes(stop_reason, first_choice_finish_reason_exec(ev));
        let kcr = kv_created();
        set_opt_i64(created, ev.i64_at(kcr.as_slice()));
    }
}

} // verus!
