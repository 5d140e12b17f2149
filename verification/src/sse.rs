//! Server-sent-event frame decoder.
//!
//! The decoder consumes raw bytes as they arrive from the network, in reads
//! of arbitrary size, and produces the payloads of complete `data:` lines.
//! Lines split across read boundaries are reassembled before they are
//! examined; a line whose trimmed payload is the `[DONE]` sentinel ends the
//! sequence, after which nothing more is produced. What each payload means
//! is the caller's business: a payload that fails to parse is skipped by the
//! stream tee without aborting the stream.
//!
//! The whole decoder is specified as a byte-at-a-time state machine, so the
//! payloads produced depend only on the concatenation of everything fed so
//! far — never on where the read boundaries fell.

use vstd::prelude::*;

verus! {

/// State of the decoding state machine: the bytes of the current,
/// not-yet-terminated line, and whether the sentinel has been seen.
pub struct DecodeState {
    pub cur: Seq<u8>,
    pub done: bool,
}

/// Bytes treated as whitespace when a payload is trimmed before the
/// sentinel comparison: space, tab, carriage return, newline.
pub open spec fn is_sse_ws(b: u8) -> bool {
    b == 32 || b == 9 || b == 13 || b == 10
}

/// Leading whitespace removed.
pub open spec fn trim_front(s: Seq<u8>) -> Seq<u8>
    decreases s.len(),
{
    if s.len() > 0 && is_sse_ws(s.first()) {
        trim_front(s.drop_first())
    } else {
        s
    }
}

/// Trailing whitespace removed.
pub open spec fn trim_back(s: Seq<u8>) -> Seq<u8>
    decreases s.len(),
{
    if s.len() > 0 && is_sse_ws(s.last()) {
        trim_back(s.drop_last())
    } else {
        s
    }
}

/// Whitespace removed from both ends.
pub open spec fn trimmed(s: Seq<u8>) -> Seq<u8> {
    trim_back(trim_front(s))
}

/// A line with one trailing carriage return removed, so that CRLF and LF
/// line endings decode alike.
pub open spec fn strip_cr(l: Seq<u8>) -> Seq<u8> {
    if l.len() > 0 && l.last() == 13 {
        l.drop_last()
    } else {
        l
    }
}

/// Whether a (CR-stripped) line begins with the SSE data prefix "data: ".
pub open spec fn has_data_prefix(s: Seq<u8>) -> bool {
    s.len() >= 6 && s[0] == 100 && s[1] == 97 && s[2] == 116 && s[3] == 97 && s[4] == 58 && s[5]
        == 32
}

/// The payload of a complete line: the text after the data prefix, or
/// nothing for lines without the prefix (comments, blank event separators).
pub open spec fn line_payload(l: Seq<u8>) -> Option<Seq<u8>> {
    let s = strip_cr(l);
    if has_data_prefix(s) {
        Some(s.skip(6))
    } else {
        None
    }
}

/// Whether a payload is the stream-terminating sentinel "[DONE]", after
/// trimming surrounding whitespace.
pub open spec fn is_done_payload(p: Seq<u8>) -> bool {
    let t = trimmed(p);
    t.len() == 6 && t[0] == 91 && t[1] == 68 && t[2] == 79 && t[3] == 78 && t[4] == 69 && t[5]
        == 93
}

/// One step of the decoding state machine: a newline terminates the current
/// line, which either carries a payload, carries the sentinel (everything
/// after it is ignored), or is skipped; any other byte extends the current
/// line.
pub open spec fn step_byte(st: DecodeState, b: u8) -> (DecodeState, Seq<Seq<u8>>) {
    if b == 10 {
        let line = st.cur;
        if st.done {
            (DecodeState { cur: Seq::empty(), done: true }, Seq::empty())
        } else {
            match line_payload(line) {
                Some(p) => {
                    if is_done_payload(p) {
                        (DecodeState { cur: Seq::empty(), done: true }, Seq::empty())
                    } else {
                        (DecodeState { cur: Seq::empty(), done: false }, seq![p])
                    }
                },
                None => (DecodeState { cur: Seq::empty(), done: false }, Seq::empty()),
            }
        }
    } else {
        (DecodeState { cur: st.cur.push(b), done: st.done }, Seq::empty())
    }
}

/// The state before any byte has been fed.
pub open spec fn init_state() -> DecodeState {
    DecodeState { cur: Seq::empty(), done: false }
}

/// Runs the state machine over a byte sequence, collecting the payloads it
/// emits.
pub open spec fn run(st: DecodeState, s: Seq<u8>) -> (DecodeState, Seq<Seq<u8>>)
    decreases s.len(),
{
    if s.len() == 0 {
        (st, Seq::empty())
    } else {
        let prev = run(st, s.drop_last());
        let last = step_byte(prev.0, s.last());
        (last.0, prev.1 + last.1)
    }
}

/// The payloads decoded from a contiguous byte stream.
pub open spec fn decoded_payloads(input: Seq<u8>) -> Seq<Seq<u8>> {
    run(init_state(), input).1
}

/// The decoder state after a contiguous byte stream.
pub open spec fn decoder_state(input: Seq<u8>) -> DecodeState {
    run(init_state(), input).0
}

/// Boundary insensitivity, in its compositional form: running the machine
/// over `a + b` is running it over `a` and then over `b` from where `a` left
/// off. Decoding therefore depends only on the concatenation of the bytes
/// fed, never on how they were cut into reads.
pub proof fn lemma_run_append(st: DecodeState, a: Seq<u8>, b: Seq<u8>)
    ensures
        run(st, a + b).0 == run(run(st, a).0, b).0,
        run(st, a + b).1 == run(st, a).1 + run(run(st, a).0, b).1,
    decreases b.len(),
{
    if b.len() == 0 {
        assert(a + b =~= a);
        assert(run(st, a).1 + run(run(st, a).0, b).1 =~= run(st, a).1);
    } else {
        lemma_run_append(st, a, b.drop_last());
        assert((a + b).drop_last() =~= a + b.drop_last());
        assert((a + b).last() == b.last());
        assert(run(st, a + b).1 =~= run(st, a).1 + run(run(st, a).0, b).1);
    }
}

/// The bytes of one outbound SSE event: a `data:` line carrying `p`,
/// followed by a blank line.
pub open spec fn frame_bytes(p: Seq<u8>) -> Seq<u8> {
    seq![100u8, 97, 116, 97, 58, 32] + p + seq![10u8, 10]
}

/// Bytes that contain no newline leave the machine collecting: they extend
/// the current line and emit nothing.
proof fn lemma_run_no_newline(st: DecodeState, s: Seq<u8>)
    requires
        forall|i: int| 0 <= i < s.len() ==> s[i] != 10,
    ensures
        run(st, s).0 == (DecodeState { cur: st.cur + s, done: st.done }),
        run(st, s).1 == (Seq::<Seq<u8>>::empty()),
    decreases s.len(),
{
    if s.len() == 0 {
        assert(st.cur + s =~= st.cur);
    } else {
        lemma_run_no_newline(st, s.drop_last());
        assert(st.cur + s =~= (st.cur + s.drop_last()).push(s.last()));
        assert(run(st, s).1 =~= Seq::<Seq<u8>>::empty());
    }
}

/// Framing/decoding round trip: one outbound event whose payload has no
/// newline, does not end in a carriage return, and does not spell the
/// sentinel decodes — fed to the machine between lines — to exactly that
/// payload, and leaves the machine back between lines. With the append law
/// this extends to any sequence of events.
pub proof fn lemma_frame_round_trip(st: DecodeState, p: Seq<u8>)
    requires
        !st.done,
        st.cur == Seq::<u8>::empty(),
        forall|i: int| 0 <= i < p.len() ==> p[i] != 10,
        p.len() == 0 || p.last() != 13,
        !is_done_payload(p),
    ensures
        run(st, frame_bytes(p)).1 == seq![p],
        run(st, frame_bytes(p)).0 == st,
{
    let head = seq![100u8, 97, 116, 97, 58, 32] + p;
    lemma_run_no_newline(st, head);
    assert(run(st, head).0.cur =~= head);

    let with_line = head + seq![10u8];
    assert(with_line.drop_last() =~= head);
    assert(strip_cr(head) == head);
    assert(has_data_prefix(head));
    assert(head.skip(6) =~= p);
    assert(run(st, with_line).1 =~= seq![p]);
    assert(run(st, with_line).0.cur =~= Seq::<u8>::empty());

    assert(frame_bytes(p).drop_last() =~= with_line);
    let blank: Seq<u8> = Seq::empty();
    assert(line_payload(blank) is None);
    assert(run(st, frame_bytes(p)).1 =~= seq![p]);
    assert(run(st, frame_bytes(p)).0 == st);
}

/// An incremental SSE frame decoder. Feed it the network reads as they
/// come; it hands back the payloads of every `data:` line completed so far,
/// reassembling lines across read boundaries and stopping at the sentinel.
pub struct SseDecoder {
    cur: Vec<u8>,
    done: bool,
    history: Ghost<Seq<u8>>,
}

impl SseDecoder {
    /// All bytes fed so far.
    pub closed spec fn history(&self) -> Seq<u8> {
        self.history@
    }

    /// The decoder's fields agree with the state machine run over its
    /// history.
    pub closed spec fn wf(&self) -> bool {
        &&& self.cur@ == decoder_state(self.history@).cur
        &&& self.done == decoder_state(self.history@).done
    }

    /// A fresh decoder with nothing fed yet.
    pub fn new() -> (r: Self)
        ensures
            r.wf(),
            r.history() == Seq::<u8>::empty(),
    {
        let r = SseDecoder { cur: Vec::new(), done: false, history: Ghost(Seq::empty()) };
        proof {
            assert(decoder_state(Seq::<u8>::empty()) == init_state());
        }
        r
    }

    /// Whether the sentinel has been seen; afterwards no further payloads
    /// are produced.
    pub fn is_done(&self) -> (b: bool)
        requires
            self.wf(),
        ensures
            b == decoder_state(self.history()).done,
    {
        self.done
    }

    /// Feeds one network read into the decoder and returns the payloads of
    /// the lines it completed. The payloads produced over time are exactly
    /// `decoded_payloads` of the concatenated history, whatever the read
    /// boundaries were.
    pub fn feed(&mut self, data: &[u8]) -> (out: Vec<Vec<u8>>)
        requires
            old(self).wf(),
        ensures
            final(self).wf(),
            final(self).history() == old(self).history() + data@,
            out.deep_view() == run(decoder_state(old(self).history()), data@).1,
            decoded_payloads(final(self).history()) == decoded_payloads(old(self).history())
                + out.deep_view(),
    {
        let ghost st0 = decoder_state(old(self).history());
        let mut out: Vec<Vec<u8>> = Vec::new();
        let n = data.len();
        let mut i: usize = 0;
        while i < n
            invariant
                i <= n,
                n == data@.len(),
                st0 == decoder_state(old(self).history()),
                self.history@ == old(self).history@,
                self.cur@ == run(st0, data@.take(i as int)).0.cur,
                self.done == run(st0, data@.take(i as int)).0.done,
                out.deep_view() == run(st0, data@.take(i as int)).1,
            decreases n - i,
        {
            let ghost pre = run(st0, data@.take(i as int));
            let b = data[i];
            if b == 10 {
                if !self.done {
                    match extract_payload(&self.cur) {
                        Some(p) => {
                            if payload_is_done(&p) {
                                self.done = true;
                            } else {
                                proof {
                                    assert(out@.len() == out.deep_view().len());
                                }
                                let ghost pv = p@;
                                out.push(p);
                                proof {
                                    assert(out@.last().deep_view() =~= pv);
                                    assert(out.deep_view() =~~= pre.1 + seq![pv]);
                                }
                            }
                        },
                        None => {},
                    }
                }
                self.cur.clear();
            } else {
                self.cur.push(b);
            }
            proof {
                assert(data@.take(i + 1 as int).drop_last() =~= data@.take(i as int));
                assert(data@.take(i + 1 as int).last() == data@[i as int]);
                let post = run(st0, data@.take(i + 1 as int));
                assert(post.0 == step_byte(pre.0, data@[i as int]).0);
                assert(post.1 =~= pre.1 + step_byte(pre.0, data@[i as int]).1);
                if data@[i as int] != 10 {
                    assert(out.deep_view() =~= post.1);
                }
            }
            i = i + 1;
        }
        proof {
            assert(data@.take(n as int) =~= data@);
        }
        let ghost new_history = self.history@ + data@;
        self.history = Ghost(new_history);
        proof {
            lemma_run_append(init_state(), old(self).history@, data@);
        }
        out
    }
}

/// Decodes a byte stream that was cut into arbitrary fragments, feeding the
/// fragments in order to one decoder. The payloads depend only on the
/// concatenation of the fragments: any split of the same stream — including
/// the trivial one-fragment split — produces the same payload sequence.
pub fn decode_fragments(fragments: &Vec<Vec<u8>>) -> (out: Vec<Vec<u8>>)
    ensures
        out.deep_view() == decoded_payloads(fragments.deep_view().flatten()),
{
    let mut dec = SseDecoder::new();
    let mut out: Vec<Vec<u8>> = Vec::new();
    let mut i: usize = 0;
    proof {
        assert(fragments.deep_view().take(0).flatten() =~= Seq::<u8>::empty());
    }
    while i < fragments.len()
        invariant
            i <= fragments.len(),
            dec.wf(),
            dec.history() == fragments.deep_view().take(i as int).flatten(),
            out.deep_view() == decoded_payloads(dec.history()),
        decreases fragments.len() - i,
    {
        let ghost pre_history = dec.history();
        let ghost pre_out = out.deep_view();
        let mut produced = dec.feed(fragments[i].as_slice());
        let ghost produced_view = produced.deep_view();
        out.append(&mut produced);
        proof {
            let frags = fragments.deep_view();
            assert(fragments@[i as int].deep_view() =~= fragments@[i as int]@);
            assert(dec.history() == pre_history + frags[i as int]);
            assert(frags.take(i + 1 as int) =~= frags.take(i as int).push(frags[i as int]));
            frags.take(i as int).lemma_flatten_push(frags[i as int]);
            assert(dec.history() =~= frags.take(i + 1 as int).flatten());
            assert(out.deep_view() =~~= pre_out + produced_view);
        }
        i = i + 1;
    }
    proof {
        assert(fragments.deep_view().take(fragments@.len() as int) =~= fragments.deep_view());
    }
    out
}

/// Extracts the payload of one complete line, executably: strips one
/// trailing carriage return, requires the "data: " prefix, and returns what
/// follows it.
fn extract_payload(line: &Vec<u8>) -> (r: Option<Vec<u8>>)
    ensures
        match r {
            Some(p) => line_payload(line@) == Some(p@),
            None => line_payload(line@) is None,
        },
{
    let mut end = line.len();
    if end > 0 && line[end - 1] == 13 {
        end = end - 1;
    }
    proof {
        assert(strip_cr(line@) =~= line@.take(end as int));
    }
    if end < 6 {
        return None;
    }
    if !(line[0] == 100 && line[1] == 97 && line[2] == 116 && line[3] == 97 && line[4] == 58
        && line[5] == 32) {
        return None;
    }
    let mut p: Vec<u8> = Vec::new();
    let mut j: usize = 6;
    while j < end
        invariant
            6 <= j <= end <= line@.len(),
            p@ =~= line@.subrange(6, j as int),
        decreases end - j,
    {
        p.push(line[j]);
        proof {
            assert(p@ =~= line@.subrange(6, j + 1 as int));
        }
        j = j + 1;
    }
    proof {
        assert(strip_cr(line@).skip(6) =~= p@);
    }
    Some(p)
}

/// Whether a payload is the sentinel, executably: trims whitespace from both
/// ends and compares with "[DONE]".
fn payload_is_done(p: &Vec<u8>) -> (b: bool)
    ensures
        b == is_done_payload(p@),
{
    let n = p.len();
    let mut a: usize = 0;
    proof {
        assert(p@.skip(0) =~= p@);
    }
    while a < n && is_ws_byte(p[a])
        invariant
            a <= n,
            n == p@.len(),
            trim_front(p@) == trim_front(p@.skip(a as int)),
        decreases n - a,
    {
        proof {
            assert(p@.skip(a as int).drop_first() =~= p@.skip(a + 1 as int));
        }
        a = a + 1;
    }
    proof {
        if a == n {
            assert(p@.skip(a as int) =~= Seq::<u8>::empty());
        }
        assert(trim_front(p@) == p@.skip(a as int));
    }
    let mut b: usize = n;
    while b > a && is_ws_byte(p[b - 1])
        invariant
            a <= b <= n,
            n == p@.len(),
            trim_front(p@) == p@.skip(a as int),
            trimmed(p@) == trim_back(p@.subrange(a as int, b as int)),
        decreases b,
    {
        proof {
            assert(p@.subrange(a as int, b as int).drop_last() =~= p@.subrange(
                a as int,
                b - 1 as int,
            ));
        }
        b = b - 1;
    }
    proof {
        assert(trimmed(p@) == p@.subrange(a as int, b as int));
    }
    b - a == 6 && p[a] == 91 && p[a + 1] == 68 && p[a + 2] == 79 && p[a + 3] == 78 && p[a + 4]
        == 69 && p[a + 5] == 93
}

/// Executable counterpart of `is_sse_ws`.
fn is_ws_byte(b: u8) -> (r: bool)
    ensures
        r == is_sse_ws(b),
{
    b == 32 || b == 9 || b == 13 || b == 10
}

} // verus!
