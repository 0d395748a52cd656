//! The streaming pass-through engine's parse side: chunks are appended
//! to a raw-body accumulator and to an event buffer, complete events
//! are cut out at blank-line boundaries, their data lines are fed to
//! the collector, and the trailing partial event stays buffered. The
//! extracted state is independent of how the bytes were chunked.

use vstd::prelude::*;

use crate::bytestr::{bytes_eq, copy_bytes, starts_with_bytes, trim_bytes, trim_seq};
use crate::collector::{
    collector_push, finish_spec, CollectorV, SseUsageCollector, StreamCompletion,
    StreamCompletionV,
};
use crate::json::{json_of, parse_json};
use crate::keys::{k_data_prefix, k_done_sentinel, kv_data_prefix, kv_done_sentinel};

verus! {

/// First index at or after `i` where a blank-line separator (two line
/// feeds) starts.
pub open spec fn find_sep_from(s: Seq<u8>, i: int) -> Option<int>
    decreases s.len() - i,
{
    if i + 2 > s.len() {
        None
    } else if s[i] == 10 && s[i + 1] == 10 {
        Some(i)
    } else {
        find_sep_from(s, i + 1)
    }
}

/// First blank-line separator of `s`.
pub open spec fn find_sep(s: Seq<u8>) -> Option<int> {
    find_sep_from(s, 0)
}

proof fn lemma_find_sep_props(s: Seq<u8>, i: int)
    requires
        0 <= i,
    ensures
        (match find_sep_from(s, i) {
            Some(p) => i <= p && p + 2 <= s.len() && s[p] == 10 && s[p + 1] == 10,
            None => true,
        }),
    decreases s.len() - i,
{
    if i + 2 > s.len() {
    } else if s[i] == 10 && s[i + 1] == 10 {
    } else {
        lemma_find_sep_props(s, i + 1);
    }
}

proof fn lemma_find_sep_extend(s: Seq<u8>, y: Seq<u8>, i: int)
    requires
        0 <= i,
        find_sep_from(s, i) is Some,
    ensures
        find_sep_from(s + y, i) == find_sep_from(s, i),
    decreases s.len() - i,
{
    if i + 2 > s.len() {
    } else if s[i] == 10 && s[i + 1] == 10 {
        assert((s + y)[i] == s[i]);
        assert((s + y)[i + 1] == s[i + 1]);
    } else {
        assert((s + y)[i] == s[i]);
        assert((s + y)[i + 1] == s[i + 1]);
        lemma_find_sep_extend(s, y, i + 1);
    }
}

/// First line feed at or after `i`.
pub open spec fn find_nl_from(s: Seq<u8>, i: int) -> Option<int>
    decreases s.len() - i,
{
    if i >= s.len() {
        None
    } else if s[i] == 10 {
        Some(i)
    } else {
        find_nl_from(s, i + 1)
    }
}

proof fn lemma_find_nl_props(s: Seq<u8>, i: int)
    ensures
        (match find_nl_from(s, i) {
            Some(p) => i <= p && p < s.len() && s[p] == 10,
            None => true,
        }),
    decreases s.len() - i,
{
    if i >= s.len() {
    } else if s[i] == 10 {
    } else {
        lemma_find_nl_props(s, i + 1);
    }
}

/// A line with a trailing carriage return removed.
pub open spec fn strip_cr(line: Seq<u8>) -> Seq<u8> {
    if line.len() > 0 && line[line.len() - 1] == 13 {
        line.drop_last()
    } else {
        line
    }
}

/// The payload of a line that carries the event-data prefix.
pub open spec fn data_payload(line: Seq<u8>) -> Option<Seq<u8>> {
    if line.len() >= 6 && line.subrange(0, 6) == k_data_prefix() {
        Some(line.subrange(6, line.len() as int))
    } else {
        None
    }
}

/// One line applied to the collector: a line without the data prefix
/// is ignored; a payload that trims to the end-of-stream sentinel is
/// dropped without any JSON parsing; a payload that parses is pushed;
/// a payload that does not parse is dropped.
pub open spec fn handle_line(c: CollectorV, line: Seq<u8>, now_ms: u64) -> CollectorV {
    match data_payload(line) {
        Some(p) => if trim_seq(p) == k_done_sentinel() {
            c
        } else {
            match json_of(p) {
                Some(j) => collector_push(c, j, now_ms),
                None => c,
            }
        },
        None => c,
    }
}

/// The lines of one event text applied in order, starting at `i`.
/// Lines are split at line feeds; a line that was terminated by a line
/// feed has one trailing carriage return removed.
pub open spec fn handle_lines_from(c: CollectorV, text: Seq<u8>, i: int, now_ms: u64) -> CollectorV
    decreases text.len() - i,
    via handle_lines_from_dec
{
    if i >= text.len() {
        c
    } else {
        match find_nl_from(text, i) {
            Some(p) => handle_lines_from(
                handle_line(c, strip_cr(text.subrange(i, p)), now_ms),
                text,
                p + 1,
                now_ms,
            ),
            None => handle_line(c, text.subrange(i, text.len() as int), now_ms),
        }
    }
}

#[via_fn]
proof fn handle_lines_from_dec(c: CollectorV, text: Seq<u8>, i: int, now_ms: u64) {
    lemma_find_nl_props(text, i);
}

/// One complete event applied to the collector, line by line.
pub open spec fn handle_event(c: CollectorV, text: Seq<u8>, now_ms: u64) -> CollectorV {
    handle_lines_from(c, text, 0, now_ms)
}

/// Model of the pass-through engine's parse state.
pub struct PassV {
    pub buffer: Seq<u8>,
    pub response_body: Seq<u8>,
    pub collector: CollectorV,
}

/// Cuts complete events out of the buffer at blank-line boundaries and
/// applies each to the collector; the residue, which holds no
/// separator, stays buffered.
pub open spec fn drain(c: CollectorV, buf: Seq<u8>, now_ms: u64) -> (CollectorV, Seq<u8>)
    decreases buf.len(),
    via drain_dec
{
    match find_sep(buf) {
        Some(p) => drain(handle_event(c, buf.take(p), now_ms), buf.skip(p + 2), now_ms),
        None => (c, buf),
    }
}

#[via_fn]
proof fn drain_dec(c: CollectorV, buf: Seq<u8>, now_ms: u64) {
    lemma_find_sep_props(buf, 0);
}

/// One chunk fed in: the bytes go verbatim onto the raw-body
/// accumulator and onto the event buffer, and every complete event now
/// in the buffer goes to the collector.
pub open spec fn feed(st: PassV, chunk: Seq<u8>, now_ms: u64) -> PassV {
    let d = drain(st.collector, st.buffer + chunk, now_ms);
    PassV { buffer: d.1, response_body: st.response_body + chunk, collector: d.0 }
}

proof fn lemma_drain_residue(c: CollectorV, buf: Seq<u8>, now_ms: u64)
    ensures
        find_sep(drain(c, buf, now_ms).1) is None,
    decreases buf.len(),
{
    match find_sep(buf) {
        Some(p) => {
            lemma_find_sep_props(buf, 0);
            lemma_drain_residue(handle_event(c, buf.take(p), now_ms), buf.skip(p + 2), now_ms);
        },
        None => {},
    }
}

proof fn lemma_drain_extend(c: CollectorV, buf: Seq<u8>, y: Seq<u8>, now_ms: u64)
    ensures
        drain(c, buf + y, now_ms) == (drain(
            drain(c, buf, now_ms).0,
            drain(c, buf, now_ms).1 + y,
            now_ms,
        )),
    decreases buf.len(),
{
    match find_sep(buf) {
        Some(p) => {
            lemma_find_sep_props(buf, 0);
            lemma_find_sep_extend(buf, y, 0);
            assert((buf + y).take(p) =~= buf.take(p));
            assert((buf + y).skip(p + 2) =~= buf.skip(p + 2) + y);
            let c1 = handle_event(c, buf.take(p), now_ms);
            lemma_drain_extend(c1, buf.skip(p + 2), y, now_ms);
        },
        None => {},
    }
}

/// Chunk-boundary independence: feeding `a` then `b` at one and the
/// same timestamp leaves the engine in exactly the state that feeding
/// the single chunk `a + b` leaves it in — the buffered residue, the
/// raw-body accumulator and the whole collector state (text, metadata,
/// counters, first-content mark) all agree, wherever the split falls.
pub proof fn lemma_chunk_boundary_independence(st: PassV, a: Seq<u8>, b: Seq<u8>, now_ms: u64)
    ensures
        feed(feed(st, a, now_ms), b, now_ms) == feed(st, a + b, now_ms),
{
    lemma_drain_extend(st.collector, st.buffer + a, b, now_ms);
    assert((st.buffer + a) + b =~= st.buffer + (a + b));
    assert((st.response_body + a) + b =~= st.response_body + (a + b));
}

/// An event-chunk sequence fed in order.
pub open spec fn feed_all(st: PassV, chunks: Seq<Seq<u8>>, now_ms: u64) -> PassV
    decreases chunks.len(),
{
    if chunks.len() == 0 {
        st
    } else {
        feed_all(feed(st, chunks[0], now_ms), chunks.drop_first(), now_ms)
    }
}

/// The concatenation of a chunk sequence.
pub open spec fn concat_chunks(chunks: Seq<Seq<u8>>) -> Seq<u8>
    decreases chunks.len(),
{
    if chunks.len() == 0 {
        Seq::empty()
    } else {
        chunks[0] + concat_chunks(chunks.drop_first())
    }
}

/// Chunk-boundary independence over a whole split: feeding any chunk
/// sequence, each at one and the same timestamp, ends in exactly the
/// state of feeding their concatenation at once, provided the starting
/// buffer holds no complete event (as a fresh engine's does).
pub proof fn lemma_chunking_independence(st: PassV, chunks: Seq<Seq<u8>>, now_ms: u64)
    requires
        find_sep(st.buffer) is None,
    ensures
        feed_all(st, chunks, now_ms) == feed(st, concat_chunks(chunks), now_ms),
    decreases chunks.len(),
{
    if chunks.len() == 0 {
        assert(st.buffer + Seq::<u8>::empty() =~= st.buffer);
        assert(st.response_body + Seq::<u8>::empty() =~= st.response_body);
    } else {
        let st1 = feed(st, chunks[0], now_ms);
        lemma_drain_residue(st.collector, st.buffer + chunks[0], now_ms);
        lemma_chunking_independence(st1, chunks.drop_first(), now_ms);
        lemma_chunk_boundary_independence(st, chunks[0], concat_chunks(chunks.drop_first()), now_ms);
    }
}

/// An end-of-stream sentinel line never reaches the JSON parser and
/// never affects the collector: a data line whose payload trims to the
/// sentinel leaves the state exactly as it was.
pub proof fn lemma_done_line_inert(c: CollectorV, line: Seq<u8>, now_ms: u64)
    requires
        data_payload(line) matches Some(p) && trim_seq(p) == k_done_sentinel(),
    ensures
        handle_line(c, line, now_ms) == c,
{
}

/// The parse side of the streaming pass-through engine. The async
/// forwarding loop owns one of these: every received chunk is fed in
/// (after having been forwarded), and the terminal paths commit the
/// raw body and finalize the collector.
pub struct StreamProcessor {
    buffer: Vec<u8>,
    response_body: Vec<u8>,
    collector: SseUsageCollector,
}

impl View for StreamProcessor {
    type V = PassV;

    closed spec fn view(&self) -> PassV {
        PassV {
            buffer: self.buffer@,
            response_body: self.response_body@,
            collector: self.collector@,
        }
    }
}

fn find_sep_exec(v: &Vec<u8>) -> (r: Option<usize>)
    ensures
        (match r {
            Some(p) => find_sep(v@) == Some(p as int),
            None => find_sep(v@) is None,
        }),
{
    let n: usize = v.len();
    if n < 2 {
        return None;
    }
    let mut i: usize = 0;
    while i <= n - 2
        invariant
            i <= v@.len(),
            n == v@.len(),
            2 <= n,
            find_sep(v@) == find_sep_from(v@, i as int),
        decreases v@.len() - i,
    {
        if v[i] == 10 && v[i + 1] == 10 {
            return Some(i);
        }
        proof {
            assert(find_sep_from(v@, i as int) == find_sep_from(v@, i as int + 1));
        }
        i += 1;
    }
    None
}

fn find_nl_exec(text: &[u8], from: usize) -> (r: Option<usize>)
    requires
        from <= text@.len(),
    ensures
        (match r {
            Some(p) => find_nl_from(text@, from as int) == Some(p as int) && from <= p
                && p < text@.len(),
            None => find_nl_from(text@, from as int) is None,
        }),
{
    let mut i: usize = from;
    while i < text.len()
        invariant
            from <= i <= text@.len(),
            find_nl_from(text@, from as int) == find_nl_from(text@, i as int),
        decreases text@.len() - i,
    {
        if text[i] == 10 {
            return Some(i);
        }
        proof {
            assert(find_nl_from(text@, i as int) == find_nl_from(text@, i as int + 1));
        }
        i += 1;
    }
    None
}

fn handle_line_exec(c: &mut SseUsageCollector, line: &[u8], now_ms: u64)
    ensures
        final(c)@ == handle_line(old(c)@, line@, now_ms),
{
    let prefix = kv_data_prefix();
    if starts_with_bytes(line, prefix.as_slice()) {
        let payload: &[u8] = &line[6..line.len()];
        proof {
            assert(payload@ == line@.subrange(6, line@.len() as int));
            assert(data_payload(line@) == Some(payload@));
        }
        let trimmed = trim_bytes(payload);
        let done = kv_done_sentinel();
        if bytes_eq(trimmed, done.as_slice()) {
            // the sentinel is recognized and dropped: no JSON parse
        } else {
            match parse_json(payload) {
                Some(j) => c.push(&j, now_ms),
                None => {},
            }
        }
    } else {
        proof {
            assert(data_payload(line@) is None);
        }
    }
}

fn handle_event_exec(c: &mut SseUsageCollector, text: &[u8], now_ms: u64)
    ensures
        final(c)@ == handle_event(old(c)@, text@, now_ms),
{
    let mut start: usize = 0;
    while start < text.len()
        invariant
            start <= text@.len(),
            handle_event(old(c)@, text@, now_ms) == handle_lines_from(
                c@,
                text@,
                start as int,
                now_ms,
            ),
        decreases text@.len() - start,
    {
        match find_nl_exec(text, start) {
            Some(p) => {
                let line_end: usize = if p > start && text[p - 1] == 13 {
                    p - 1
                } else {
                    p
                };
                let line: &[u8] = &text[start..line_end];
                proof {
                    assert(line@ =~= strip_cr(text@.subrange(start as int, p as int)));
                }
                handle_line_exec(c, line, now_ms);
                start = p + 1;
            },
            None => {
                let line: &[u8] = &text[start..text.len()];
                handle_line_exec(c, line, now_ms);
                start = text.len();
            },
        }
    }
}

/// Committing the raw body and finalizing, as one step of the model.
pub open spec fn commit_finish_spec(st: PassV, now_ms: u64) -> (PassV, Option<StreamCompletionV>) {
    let c1 = CollectorV { response_body: Some(st.response_body), ..st.collector };
    let f = finish_spec(c1, now_ms);
    (PassV { collector: f.0, ..st }, f.1)
}

/// Finalizing without committing a body, as one step of the model.
pub open spec fn finish_only_spec(st: PassV, now_ms: u64) -> (PassV, Option<StreamCompletionV>) {
    let f = finish_spec(st.collector, now_ms);
    (PassV { collector: f.0, ..st }, f.1)
}

impl StreamProcessor {
    /// A fresh engine around a collector.
    pub fn new(collector: SseUsageCollector) -> (r: Self)
        ensures
            r@ == (PassV {
                buffer: Seq::empty(),
                response_body: Seq::empty(),
                collector: collector@,
            }),
    {
        StreamProcessor { buffer: Vec::new(), response_body: Vec::new(), collector }
    }

    /// Feeds the bytes of one received chunk, after the caller has
    /// already forwarded them: they are recorded verbatim in the
    /// raw-body accumulator, and every complete event they finish is
    /// cut at its blank-line boundary and handed to the collector, in
    /// arrival order; a trailing partial event stays buffered.
    pub fn process_chunk(&mut self, chunk: &[u8], now_ms: u64)
        ensures
            final(self)@ == feed(old(self)@, chunk@, now_ms),
    {
        self.response_body.extend_from_slice(chunk);
        self.buffer.extend_from_slice(chunk);
        let ghost c0 = self.collector@;
        let ghost b0 = self.buffer@;
        proof {
            assert(c0 == old(self)@.collector);
            assert(b0 == old(self)@.buffer + chunk@);
        }
        loop
            invariant
                drain(c0, b0, now_ms) == drain(self.collector@, self.buffer@, now_ms),
                self.response_body@ == old(self)@.response_body + chunk@,
            ensures
                drain(c0, b0, now_ms) == drain(self.collector@, self.buffer@, now_ms),
                self.response_body@ == old(self)@.response_body + chunk@,
                find_sep(self.buffer@) is None,
            decreases self.buffer@.len(),
        {
            match find_sep_exec(&self.buffer) {
                Some(p) => {
                    proof {
                        lemma_find_sep_props(self.buffer@, 0);
                    }
                    let blen: usize = self.buffer.len();
                    assert(p + 2 <= blen);
                    let event: Vec<u8> = crate::bytestr::subvec(self.buffer.as_slice(), 0, p);
                    let rest: Vec<u8> = crate::bytestr::subvec(self.buffer.as_slice(), p + 2, blen);
                    proof {
                        assert(event@ =~= self.buffer@.take(p as int));
                        assert(rest@ =~= self.buffer@.skip(p as int + 2));
                    }
                    handle_event_exec(&mut self.collector, event.as_slice(), now_ms);
                    self.buffer = rest;
                },
                None => {
                    break;
                },
            }
        }
        proof {
            assert(drain(self.collector@, self.buffer@, now_ms) == (
                self.collector@,
                self.buffer@,
            ));
            assert(feed(old(self)@, chunk@, now_ms).buffer == self.buffer@);
            assert(feed(old(self)@, chunk@, now_ms).collector == self.collector@);
            assert(feed(old(self)@, chunk@, now_ms).response_body == self.response_body@);
        }
    }

    /// Terminal step for a normally exhausted or failed upstream:
    /// commits the raw-body accumulator as the authoritative snapshot,
    /// then finalizes the collector; the completion value comes out
    /// exactly once over the engine's life.
    pub fn commit_and_finish(&mut self, now_ms: u64) -> (r: Option<StreamCompletion>)
        ensures
            final(self)@ == commit_finish_spec(old(self)@, now_ms).0,
            (match r {
                Some(c) => commit_finish_spec(old(self)@, now_ms).1 == Some(c@),
                None => commit_finish_spec(old(self)@, now_ms).1 is None,
            }),
    {
        let body = copy_bytes(&self.response_body);
        self.collector.set_response_body(body);
        self.collector.finish(now_ms)
    }

    /// Terminal step for the timeout path: finalizes without
    /// committing a body snapshot.
    pub fn finish_only(&mut self, now_ms: u64) -> (r: Option<StreamCompletion>)
        ensures
            final(self)@ == finish_only_spec(old(self)@, now_ms).0,
            (match r {
                Some(c) => finish_only_spec(old(self)@, now_ms).1 == Some(c@),
                None => finish_only_spec(old(self)@, now_ms).1 is None,
            }),
    {
        self.collector.finish(now_ms)
    }
}

} // verus!
