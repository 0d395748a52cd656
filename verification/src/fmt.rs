//! Construction of the synthesized response bodies that the logging
//! path persists: decimal formatting, JSON string escaping, and the
//! fixed-shape JSON records assembled from extracted stream data.

use vstd::prelude::*;

use crate::collector::{opt_bytes_view, ExtractedStreamData, StreamDataV};

verus! {

/// Decimal digits of `n`, most significant first.
pub open spec fn dec_nat(n: nat) -> Seq<u8>
    decreases n,
{
    if n < 10 {
        seq![(48 + n) as u8]
    } else {
        dec_nat(n / 10) + seq![(48 + n % 10) as u8]
    }
}

/// Decimal digits of `v`, with a leading minus sign when negative.
pub open spec fn dec_i64(v: i64) -> Seq<u8> {
    if v >= 0 {
        dec_nat(v as nat)
    } else {
        seq![45u8] + dec_nat((0 - v as int) as nat)
    }
}

/// Lower-case hexadecimal digit for `n < 16`.
pub open spec fn hex_digit(n: u8) -> u8 {
    if n < 10 {
        (48 + n) as u8
    } else {
        (87 + n) as u8
    }
}

/// The JSON escape of one byte: the two-character escapes of the
/// common control characters, a `\u00..` escape for the rest below
/// 0x20, the byte itself otherwise.
pub open spec fn escape_byte(b: u8) -> Seq<u8> {
    if b == 34 {
        seq![92u8, 34u8]
    } else if b == 92 {
        seq![92u8, 92u8]
    } else if b == 8 {
        seq![92u8, 98u8]
    } else if b == 9 {
        seq![92u8, 116u8]
    } else if b == 10 {
        seq![92u8, 110u8]
    } else if b == 12 {
        seq![92u8, 102u8]
    } else if b == 13 {
        seq![92u8, 114u8]
    } else if b < 32 {
        seq![92u8, 117u8, 48u8, 48u8, hex_digit(b / 16), hex_digit(b % 16)]
    } else {
        seq![b]
    }
}

/// The JSON escape of a byte string.
pub open spec fn escape_seq(s: Seq<u8>) -> Seq<u8>
    decreases s.len(),
{
    if s.len() == 0 {
        Seq::empty()
    } else {
        escape_byte(s[0]) + escape_seq(s.drop_first())
    }
}

/// A quoted, escaped JSON string literal.
pub open spec fn json_str_lit(s: Seq<u8>) -> Seq<u8> {
    seq![34u8] + escape_seq(s) + seq![34u8]
}

/// A string literal, or `null` when absent.
pub open spec fn json_opt_str(o: Option<Seq<u8>>) -> Seq<u8> {
    match o {
        Some(s) => json_str_lit(s),
        None => l_null(),
    }
}

/// A decimal number, or `null` when absent.
pub open spec fn json_opt_i64(o: Option<i64>) -> Seq<u8> {
    match o {
        Some(v) => dec_i64(v),
        None => l_null(),
    }
}

/// A decimal number, or `null` when absent.
pub open spec fn json_opt_u64(o: Option<u64>) -> Seq<u8> {
    match o {
        Some(v) => dec_nat(v as nat),
        None => l_null(),
    }
}

/// `{"created":`
pub open spec fn l_obj_created() -> Seq<u8> {
    seq![123u8, 34u8, 99u8, 114u8, 101u8, 97u8, 116u8, 101u8, 100u8, 34u8, 58u8]
}

/// `{"created":`
fn lv_obj_created() -> (r: Vec<u8>)
    ensures
        r@ == l_obj_created(),
{
    let v: Vec<u8> = vec![123, 34, 99, 114, 101, 97, 116, 101, 100, 34, 58];
    proof {
        assert(v@ =~= l_obj_created());
    }
    v
}

/// `,"first_token_ms":`
pub open spec fn l_sep_first_token_ms() -> Seq<u8> {
    seq![44u8, 34u8, 102u8, 105u8, 114u8, 115u8, 116u8, 95u8, 116u8, 111u8, 107u8, 101u8, 110u8, 95u8, 109u8, 115u8, 34u8, 58u8]
}

/// `,"first_token_ms":`
fn lv_sep_first_token_ms() -> (r: Vec<u8>)
    ensures
        r@ == l_sep_first_token_ms(),
{
    let v: Vec<u8> = vec![44, 34, 102, 105, 114, 115, 116, 95, 116, 111, 107, 101, 110, 95, 109, 115, 34, 58];
    proof {
        assert(v@ =~= l_sep_first_token_ms());
    }
    v
}

/// `,"id":`
pub open spec fn l_sep_id() -> Seq<u8> {
    seq![44u8, 34u8, 105u8, 100u8, 34u8, 58u8]
}

/// `,"id":`
fn lv_sep_id() -> (r: Vec<u8>)
    ensures
        r@ == l_sep_id(),
{
    let v: Vec<u8> = vec![44, 34, 105, 100, 34, 58];
    proof {
        assert(v@ =~= l_sep_id());
    }
    v
}

/// `,"model":`
pub open spec fn l_sep_model() -> Seq<u8> {
    seq![44u8, 34u8, 109u8, 111u8, 100u8, 101u8, 108u8, 34u8, 58u8]
}

/// `,"model":`
fn lv_sep_model() -> (r: Vec<u8>)
    ensures
        r@ == l_sep_model(),
{
    let v: Vec<u8> = vec![44, 34, 109, 111, 100, 101, 108, 34, 58];
    proof {
        assert(v@ =~= l_sep_model());
    }
    v
}

/// `,"stop_reason":`
pub open spec fn l_sep_stop_reason() -> Seq<u8> {
    seq![44u8, 34u8, 115u8, 116u8, 111u8, 112u8, 95u8, 114u8, 101u8, 97u8, 115u8, 111u8, 110u8, 34u8, 58u8]
}

/// `,"stop_reason":`
fn lv_sep_stop_reason() -> (r: Vec<u8>)
    ensures
        r@ == l_sep_stop_reason(),
{
    let v: Vec<u8> = vec![44, 34, 115, 116, 111, 112, 95, 114, 101, 97, 115, 111, 110, 34, 58];
    proof {
        assert(v@ =~= l_sep_stop_reason());
    }
    v
}

/// `,"text":`
pub open spec fn l_sep_text() -> Seq<u8> {
    seq![44u8, 34u8, 116u8, 101u8, 120u8, 116u8, 34u8, 58u8]
}

/// `,"text":`
fn lv_sep_text() -> (r: Vec<u8>)
    ensures
        r@ == l_sep_text(),
{
    let v: Vec<u8> = vec![44, 34, 116, 101, 120, 116, 34, 58];
    proof {
        assert(v@ =~= l_sep_text());
    }
    v
}

/// `,"usage":{"cache_creation_tokens":`
pub open spec fn l_sep_usage_cache_creation() -> Seq<u8> {
    seq![44u8, 34u8, 117u8, 115u8, 97u8, 103u8, 101u8, 34u8, 58u8, 123u8, 34u8, 99u8, 97u8, 99u8, 104u8, 101u8, 95u8, 99u8, 114u8, 101u8, 97u8, 116u8, 105u8, 111u8, 110u8, 95u8, 116u8, 111u8, 107u8, 101u8, 110u8, 115u8, 34u8, 58u8]
}

/// `,"usage":{"cache_creation_tokens":`
fn lv_sep_usage_cache_creation() -> (r: Vec<u8>)
    ensures
        r@ == l_sep_usage_cache_creation(),
{
    let v: Vec<u8> = vec![44, 34, 117, 115, 97, 103, 101, 34, 58, 123, 34, 99, 97, 99, 104, 101, 95, 99, 114, 101, 97, 116, 105, 111, 110, 95, 116, 111, 107, 101, 110, 115, 34, 58];
    proof {
        assert(v@ =~= l_sep_usage_cache_creation());
    }
    v
}

/// `,"cache_read_tokens":`
pub open spec fn l_sep_cache_read() -> Seq<u8> {
    seq![44u8, 34u8, 99u8, 97u8, 99u8, 104u8, 101u8, 95u8, 114u8, 101u8, 97u8, 100u8, 95u8, 116u8, 111u8, 107u8, 101u8, 110u8, 115u8, 34u8, 58u8]
}

/// `,"cache_read_tokens":`
fn lv_sep_cache_read() -> (r: Vec<u8>)
    ensures
        r@ == l_sep_cache_read(),
{
    let v: Vec<u8> = vec![44, 34, 99, 97, 99, 104, 101, 95, 114, 101, 97, 100, 95, 116, 111, 107, 101, 110, 115, 34, 58];
    proof {
        assert(v@ =~= l_sep_cache_read());
    }
    v
}

/// `,"input_tokens":`
pub open spec fn l_sep_input() -> Seq<u8> {
    seq![44u8, 34u8, 105u8, 110u8, 112u8, 117u8, 116u8, 95u8, 116u8, 111u8, 107u8, 101u8, 110u8, 115u8, 34u8, 58u8]
}

/// `,"input_tokens":`
fn lv_sep_input() -> (r: Vec<u8>)
    ensures
        r@ == l_sep_input(),
{
    let v: Vec<u8> = vec![44, 34, 105, 110, 112, 117, 116, 95, 116, 111, 107, 101, 110, 115, 34, 58];
    proof {
        assert(v@ =~= l_sep_input());
    }
    v
}

/// `,"output_tokens":`
pub open spec fn l_sep_output() -> Seq<u8> {
    seq![44u8, 34u8, 111u8, 117u8, 116u8, 112u8, 117u8, 116u8, 95u8, 116u8, 111u8, 107u8, 101u8, 110u8, 115u8, 34u8, 58u8]
}

/// `,"output_tokens":`
fn lv_sep_output() -> (r: Vec<u8>)
    ensures
        r@ == l_sep_output(),
{
    let v: Vec<u8> = vec![44, 34, 111, 117, 116, 112, 117, 116, 95, 116, 111, 107, 101, 110, 115, 34, 58];
    proof {
        assert(v@ =~= l_sep_output());
    }
    v
}

/// `{"events_count":`
pub open spec fn l_obj_events_count() -> Seq<u8> {
    seq![123u8, 34u8, 101u8, 118u8, 101u8, 110u8, 116u8, 115u8, 95u8, 99u8, 111u8, 117u8, 110u8, 116u8, 34u8, 58u8]
}

/// `{"events_count":`
fn lv_obj_events_count() -> (r: Vec<u8>)
    ensures
        r@ == l_obj_events_count(),
{
    let v: Vec<u8> = vec![123, 34, 101, 118, 101, 110, 116, 115, 95, 99, 111, 117, 110, 116, 34, 58];
    proof {
        assert(v@ =~= l_obj_events_count());
    }
    v
}

/// `,"extracted":true`
pub open spec fn l_sep_extracted_true() -> Seq<u8> {
    seq![44u8, 34u8, 101u8, 120u8, 116u8, 114u8, 97u8, 99u8, 116u8, 101u8, 100u8, 34u8, 58u8, 116u8, 114u8, 117u8, 101u8]
}

/// `,"extracted":true`
fn lv_sep_extracted_true() -> (r: Vec<u8>)
    ensures
        r@ == l_sep_extracted_true(),
{
    let v: Vec<u8> = vec![44, 34, 101, 120, 116, 114, 97, 99, 116, 101, 100, 34, 58, 116, 114, 117, 101];
    proof {
        assert(v@ =~= l_sep_extracted_true());
    }
    v
}

/// `}`
pub open spec fn l_close_obj() -> Seq<u8> {
    seq![125u8]
}

/// `}`
fn lv_close_obj() -> (r: Vec<u8>)
    ensures
        r@ == l_close_obj(),
{
    let v: Vec<u8> = vec![125];
    proof {
        assert(v@ =~= l_close_obj());
    }
    v
}

/// `}}`
pub open spec fn l_close_two() -> Seq<u8> {
    seq![125u8, 125u8]
}

/// `}}`
fn lv_close_two() -> (r: Vec<u8>)
    ensures
        r@ == l_close_two(),
{
    let v: Vec<u8> = vec![125, 125];
    proof {
        assert(v@ =~= l_close_two());
    }
    v
}

/// `null`
pub open spec fn l_null() -> Seq<u8> {
    seq![110u8, 117u8, 108u8, 108u8]
}

/// `null`
fn lv_null() -> (r: Vec<u8>)
    ensures
        r@ == l_null(),
{
    let v: Vec<u8> = vec![110, 117, 108, 108];
    proof {
        assert(v@ =~= l_null());
    }
    v
}

proof fn lemma_escape_snoc(s: Seq<u8>, x: u8)
    ensures
        escape_seq(s.push(x)) == escape_seq(s) + escape_byte(x),
    decreases s.len(),
{
    if s.len() == 0 {
        assert(s.push(x).drop_first() =~= Seq::<u8>::empty());
        assert(s.push(x)[0] == x);
        assert(escape_seq(s.push(x)) == escape_byte(x) + escape_seq(Seq::<u8>::empty()));
        assert(escape_seq(s.push(x)) =~= escape_seq(s) + escape_byte(x));
    } else {
        assert(s.push(x).drop_first() =~= s.drop_first().push(x));
        lemma_escape_snoc(s.drop_first(), x);
        assert(escape_seq(s.push(x)) =~= escape_seq(s) + escape_byte(x));
    }
}

fn hex_digit_exec(n: u8) -> (r: u8)
    requires
        n < 16,
    ensures
        r == hex_digit(n),
{
    if n < 10 {
        48 + n
    } else {
        87 + n
    }
}

/// Appends the JSON escape of `s`.
fn append_escape(out: &mut Vec<u8>, s: &[u8])
    ensures
        final(out)@ == old(out)@ + escape_seq(s@),
{
    let mut i: usize = 0;
    proof {
        assert(out@ =~= old(out)@ + escape_seq(s@.take(0)));
    }
    while i < s.len()
        invariant
            i <= s@.len(),
            out@ == old(out)@ + escape_seq(s@.take(i as int)),
        decreases s@.len() - i,
    {
        let b: u8 = s[i];
        if b == 34 {
            out.push(92);
            out.push(34);
        } else if b == 92 {
            out.push(92);
            out.push(92);
        } else if b == 8 {
            out.push(92);
            out.push(98);
        } else if b == 9 {
            out.push(92);
            out.push(116);
        } else if b == 10 {
            out.push(92);
            out.push(110);
        } else if b == 12 {
            out.push(92);
            out.push(102);
        } else if b == 13 {
            out.push(92);
            out.push(114);
        } else if b < 32 {
            out.push(92);
            out.push(117);
            out.push(48);
            out.push(48);
            out.push(hex_digit_exec(b / 16));
            out.push(hex_digit_exec(b % 16));
        } else {
            out.push(b);
        }
        proof {
            assert(s@.take(i as int).push(b) =~= s@.take(i as int + 1));
            lemma_escape_snoc(s@.take(i as int), b);
            assert(out@ =~= old(out)@ + escape_seq(s@.take(i as int + 1)));
        }
        i += 1;
    }
    proof {
        assert(s@.take(s@.len() as int) =~= s@);
    }
}

/// Decimal digits of `n`.
pub fn u64_to_dec(n: u64) -> (r: Vec<u8>)
    ensures
        r@ == dec_nat(n as nat),
{
    let mut out: Vec<u8> = Vec::new();
    let mut m: u64 = n;
    let mut done: bool = false;
    proof {
        assert(dec_nat(n as nat) =~= dec_nat(n as nat) + out@);
    }
    while !done
        invariant
            !done ==> dec_nat(n as nat) == dec_nat(m as nat) + out@,
            done ==> dec_nat(n as nat) == out@,
        decreases m, (if done {
            0int
        } else {
            1int
        }),
    {
        let d: u8 = (m % 10) as u8 + 48;
        let ghost m0 = m as nat;
        let ghost out0 = out@;
        out.insert(0, d);
        proof {
            assert(out@ =~= seq![d] + out0);
        }
        m = m / 10;
        if m == 0 {
            done = true;
            proof {
                if m0 < 10 {
                    assert(dec_nat(m0) == seq![d]);
                } else {
                    assert(dec_nat(m0) == dec_nat(m0 / 10) + seq![d]);
                    assert(m0 / 10 == 0);
                    assert(dec_nat(0) + seq![d] == seq![48u8] + seq![d]);
                }
                assert(dec_nat(n as nat) =~= out@);
            }
        } else {
            proof {
                assert(m0 >= 10);
                assert(dec_nat(m0) == dec_nat(m0 / 10) + seq![d]);
                assert(dec_nat(n as nat) =~= dec_nat(m as nat) + out@);
            }
        }
    }
    out
}

/// Decimal digits of `v`, signed.
pub fn i64_to_dec(v: i64) -> (r: Vec<u8>)
    ensures
        r@ == dec_i64(v),
{
    if v >= 0 {
        let r = u64_to_dec(v as u64);
        r
    } else {
        let mag: u64 = ((-(v + 1)) as u64) + 1;
        proof {
            assert(mag as nat == (0 - v as int) as nat);
        }
        let mut out: Vec<u8> = Vec::new();
        out.push(45);
        let d = u64_to_dec(mag);
        out.extend_from_slice(d.as_slice());
        proof {
            assert(out@ =~= dec_i64(v));
        }
        out
    }
}

fn append_u32_dec(out: &mut Vec<u8>, n: u32)
    ensures
        final(out)@ == old(out)@ + dec_nat(n as nat),
{
    let d = u64_to_dec(n as u64);
    out.extend_from_slice(d.as_slice());
}

fn append_json_str(out: &mut Vec<u8>, s: &[u8])
    ensures
        final(out)@ == old(out)@ + json_str_lit(s@),
{
    out.push(34);
    append_escape(out, s);
    out.push(34);
    proof {
        assert(out@ =~= old(out)@ + json_str_lit(s@));
    }
}

fn append_json_opt_str(out: &mut Vec<u8>, s: &Option<Vec<u8>>)
    ensures
        final(out)@ == old(out)@ + json_opt_str(opt_bytes_view(*s)),
{
    match s {
        Some(v) => append_json_str(out, v.as_slice()),
        None => {
            let n = lv_null();
            out.extend_from_slice(n.as_slice());
        },
    }
}

fn append_json_opt_i64(out: &mut Vec<u8>, o: Option<i64>)
    ensures
        final(out)@ == old(out)@ + json_opt_i64(o),
{
    match o {
        Some(v) => {
            let d = i64_to_dec(v);
            out.extend_from_slice(d.as_slice());
        },
        None => {
            let n = lv_null();
            out.extend_from_slice(n.as_slice());
        },
    }
}

fn append_json_opt_u64(out: &mut Vec<u8>, o: Option<u64>)
    ensures
        final(out)@ == old(out)@ + json_opt_u64(o),
{
    match o {
        Some(v) => {
            let d = u64_to_dec(v);
            out.extend_from_slice(d.as_slice());
        },
        None => {
            let n = lv_null();
            out.extend_from_slice(n.as_slice());
        },
    }
}

fn append_lit(out: &mut Vec<u8>, lit: &Vec<u8>)
    ensures
        final(out)@ == old(out)@ + lit@,
{
    out.extend_from_slice(lit.as_slice());
}

/// The synthesized record built from extracted data alone: creation
/// time, id, model, stop reason and the combined text.
pub open spec fn final_body_spec(d: StreamDataV) -> Seq<u8> {
    l_obj_created() + json_opt_i64(d.created) + l_sep_id() + json_opt_str(d.message_id)
        + l_sep_model() + json_opt_str(d.model) + l_sep_stop_reason() + json_opt_str(d.stop_reason)
        + l_sep_text() + json_str_lit(d.text) + l_close_obj()
}

/// Builds `final_body_spec`, or nothing when no text was extracted.
pub fn build_final_body_from_data(d: &ExtractedStreamData) -> (r: Option<Vec<u8>>)
    ensures
        d@.text.len() == 0 <==> r is None,
        (match r {
            Some(v) => v@ == final_body_spec(d@),
            None => true,
        }),
{
    if d.text.len() == 0 {
        return None;
    }
    let mut out: Vec<u8> = Vec::new();
    append_lit(&mut out, &lv_obj_created());
    append_json_opt_i64(&mut out, d.created);
    append_lit(&mut out, &lv_sep_id());
    append_json_opt_str(&mut out, &d.message_id);
    append_lit(&mut out, &lv_sep_model());
    append_json_opt_str(&mut out, &d.model);
    append_lit(&mut out, &lv_sep_stop_reason());
    append_json_opt_str(&mut out, &d.stop_reason);
    append_lit(&mut out, &lv_sep_text());
    append_json_str(&mut out, d.text.as_slice());
    append_lit(&mut out, &lv_close_obj());
    proof {
        assert(out@ =~= final_body_spec(d@));
    }
    Some(out)
}

/// The trailing usage object of a synthesized record.
pub open spec fn usage_tail_spec(
    input_tokens: u32,
    output_tokens: u32,
    cache_read_tokens: u32,
    cache_creation_tokens: u32,
) -> Seq<u8> {
    l_sep_usage_cache_creation() + dec_nat(cache_creation_tokens as nat) + l_sep_cache_read()
        + dec_nat(cache_read_tokens as nat) + l_sep_input() + dec_nat(input_tokens as nat)
        + l_sep_output() + dec_nat(output_tokens as nat) + l_close_two()
}

/// The synthesized record for a stream that carried usage data: the
/// resolved model name is embedded as a string and the counters as a
/// nested usage object.
pub open spec fn stream_body_with_usage_spec(
    d: StreamDataV,
    model: Seq<u8>,
    first_token_ms: Option<u64>,
    input_tokens: u32,
    output_tokens: u32,
    cache_read_tokens: u32,
    cache_creation_tokens: u32,
) -> Seq<u8> {
    l_obj_created() + json_opt_i64(d.created) + l_sep_first_token_ms() + json_opt_u64(
        first_token_ms,
    ) + l_sep_id() + json_opt_str(d.message_id) + l_sep_model() + json_str_lit(model)
        + l_sep_stop_reason() + json_opt_str(d.stop_reason) + l_sep_text() + json_str_lit(d.text)
        + usage_tail_spec(input_tokens, output_tokens, cache_read_tokens, cache_creation_tokens)
}

/// The synthesized record for a stream without usage data.
pub open spec fn stream_body_plain_spec(d: StreamDataV, first_token_ms: Option<u64>) -> Seq<u8> {
    l_obj_created() + json_opt_i64(d.created) + l_sep_first_token_ms() + json_opt_u64(
        first_token_ms,
    ) + l_sep_id() + json_opt_str(d.message_id) + l_sep_model() + json_opt_str(d.model)
        + l_sep_stop_reason() + json_opt_str(d.stop_reason) + l_sep_text() + json_str_lit(d.text)
        + l_close_obj()
}

/// Builds `stream_body_with_usage_spec`.
pub fn build_stream_body_with_usage(
    d: &ExtractedStreamData,
    model: &[u8],
    first_token_ms: Option<u64>,
    input_tokens: u32,
    output_tokens: u32,
    cache_read_tokens: u32,
    cache_creation_tokens: u32,
) -> (r: Vec<u8>)
    ensures
        r@ == stream_body_with_usage_spec(
            d@,
            model@,
            first_token_ms,
            input_tokens,
            output_tokens,
            cache_read_tokens,
            cache_creation_tokens,
        ),
{
    let mut out: Vec<u8> = Vec::new();
    append_lit(&mut out, &lv_obj_created());
    append_json_opt_i64(&mut out, d.created);
    append_lit(&mut out, &lv_sep_first_token_ms());
    append_json_opt_u64(&mut out, first_token_ms);
    append_lit(&mut out, &lv_sep_id());
    append_json_opt_str(&mut out, &d.message_id);
    append_lit(&mut out, &lv_sep_model());
    append_json_str(&mut out, model);
    append_lit(&mut out, &lv_sep_stop_reason());
    append_json_opt_str(&mut out, &d.stop_reason);
    append_lit(&mut out, &lv_sep_text());
    append_json_str(&mut out, d.text.as_slice());
    append_lit(&mut out, &lv_sep_usage_cache_creation());
    append_u32_dec(&mut out, cache_creation_tokens);
    append_lit(&mut out, &lv_sep_cache_read());
    append_u32_dec(&mut out, cache_read_tokens);
    append_lit(&mut out, &lv_sep_input());
    append_u32_dec(&mut out, input_tokens);
    append_lit(&mut out, &lv_sep_output());
    append_u32_dec(&mut out, output_tokens);
    append_lit(&mut out, &lv_close_two());
    proof {
        assert(out@ =~= stream_body_with_usage_spec(
            d@,
            model@,
            first_token_ms,
            input_tokens,
            output_tokens,
            cache_read_tokens,
            cache_creation_tokens,
        ));
    }
    out
}

/// Builds `stream_body_plain_spec`.
pub fn build_stream_body_plain(d: &ExtractedStreamData, first_token_ms: Option<u64>) -> (r: Vec<
    u8,
>)
    ensures
        r@ == stream_body_plain_spec(d@, first_token_ms),
{
    let mut out: Vec<u8> = Vec::new();
    append_lit(&mut out, &lv_obj_created());
    append_json_opt_i64(&mut out, d.created);
    append_lit(&mut out, &lv_sep_first_token_ms());
    append_json_opt_u64(&mut out, first_token_ms);
    append_lit(&mut out, &lv_sep_id());
    append_json_opt_str(&mut out, &d.message_id);
    append_lit(&mut out, &lv_sep_model());
    append_json_opt_str(&mut out, &d.model);
    append_lit(&mut out, &lv_sep_stop_reason());
    append_json_opt_str(&mut out, &d.stop_reason);
    append_lit(&mut out, &lv_sep_text());
    append_json_str(&mut out, d.text.as_slice());
    append_lit(&mut out, &lv_close_obj());
    proof {
        assert(out@ =~= stream_body_plain_spec(d@, first_token_ms));
    }
    out
}

/// The synthesized record for text extracted out of a whole event
/// list: the event count, an extraction mark, and the combined text.
pub open spec fn events_body_spec(text: Seq<u8>, n: nat) -> Seq<u8> {
    l_obj_events_count() + dec_nat(n) + l_sep_extracted_true() + l_sep_text() + json_str_lit(text)
        + l_close_obj()
}

/// Builds `events_body_spec`.
pub fn build_events_body(text: &[u8], n: u64) -> (r: Vec<u8>)
    ensures
        r@ == events_body_spec(text@, n as nat),
{
    let mut out: Vec<u8> = Vec::new();
    append_lit(&mut out, &lv_obj_events_count());
    let d = u64_to_dec(n);
    out.extend_from_slice(d.as_slice());
    append_lit(&mut out, &lv_sep_extracted_true());
    append_lit(&mut out, &lv_sep_text());
    append_json_str(&mut out, text);
    append_lit(&mut out, &lv_close_obj());
    proof {
        assert(out@ =~= events_body_spec(text@, n as nat));
    }
    out
}

} // verus!
