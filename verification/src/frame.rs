//! The frame codec: consistent-overhead byte stuffing with a zero delimiter.
//!
//! A frame is a run of non-zero bytes followed by one zero byte. The run is
//! a chain of blocks; each block is a code byte `c` followed by `c - 1`
//! payload bytes, and every block but the last stands for its payload bytes
//! followed by one zero byte of payload (a block with code `0xFF` stands for
//! its 254 payload bytes alone). So a zero never occurs inside a frame, and
//! a receiver that lost its place finds it again at the next zero.

use vstd::prelude::*;
use vstd::slice::slice_subrange;

verus! {

/// Largest frame that is sent or accepted, delimiter included.
pub const BUF_SIZE: usize = 128;

/// Largest payload whose frame fits in `BUF_SIZE` bytes.
pub const MAX_PAYLOAD: usize = 126;

/// No byte of `s` is the delimiter.
pub open spec fn zero_free(s: Seq<u8>) -> bool {
    forall|i: int| 0 <= i < s.len() ==> s[i] != 0
}

/// Length of the run of non-zero bytes that `s` starts with.
pub open spec fn run_len(s: Seq<u8>) -> nat
    decreases s.len(),
{
    if s.len() == 0 || s[0] == 0 {
        0
    } else {
        1 + run_len(s.drop_first())
    }
}

/// The chain of blocks that stands for `payload`, without the delimiter.
///
/// The payload is cut at its zero bytes; each piece becomes one block.
/// Meaningful for payloads whose runs of non-zero bytes are shorter than
/// 254 bytes, which holds of every payload of at most `MAX_PAYLOAD` bytes.
pub open spec fn stuff(payload: Seq<u8>) -> Seq<u8>
    decreases payload.len(),
{
    let n = run_len(payload) as int;
    let block = seq![(n + 1) as u8] + payload.take(n);
    if n >= payload.len() {
        block
    } else {
        block + stuff(payload.skip(n + 1))
    }
}

/// The frame of `payload`: its blocks, then the delimiter.
pub open spec fn encode_spec(payload: Seq<u8>) -> Seq<u8> {
    stuff(payload).push(0u8)
}

/// The payload that a chain of blocks stands for, if the chain is complete.
///
/// `None` for an empty chain and for a chain whose last block is cut short.
pub open spec fn unstuff(body: Seq<u8>) -> Option<Seq<u8>>
    decreases body.len(),
{
    if body.len() == 0 {
        None
    } else {
        let code = body[0] as int;
        if code == 0 || code > body.len() {
            None
        } else if code == body.len() {
            Some(body.subrange(1, code))
        } else {
            match unstuff(body.skip(code)) {
                Some(rest) => Some(body.subrange(1, code) + gap(body[0]) + rest),
                None => None,
            }
        }
    }
}

/// What a block with the given code stands for between its payload bytes
/// and the next block: one zero byte, or nothing after a full block.
pub open spec fn gap(code: u8) -> Seq<u8> {
    if code == 0xFF {
        Seq::<u8>::empty()
    } else {
        seq![0u8]
    }
}

/// The payload of a frame: `Some` exactly for a zero-free, complete chain of
/// blocks followed by one delimiter.
pub open spec fn decode_spec(frame: Seq<u8>) -> Option<Seq<u8>> {
    if frame.len() > 0 && frame.last() == 0 && zero_free(frame.drop_last()) {
        unstuff(frame.drop_last())
    } else {
        None
    }
}

proof fn lemma_run_len_bounds(s: Seq<u8>)
    ensures
        run_len(s) <= s.len(),
        forall|i: int| 0 <= i < run_len(s) ==> s[i] != 0,
        run_len(s) < s.len() ==> s[run_len(s) as int] == 0,
    decreases s.len(),
{
    if s.len() == 0 || s[0] == 0 {
    } else {
        let t = s.drop_first();
        lemma_run_len_bounds(t);
        assert forall|i: int| 0 <= i < run_len(s) implies s[i] != 0 by {
            if i > 0 {
                assert(s[i] == t[i - 1]);
            }
        }
    }
}

proof fn lemma_run_len_is(s: Seq<u8>, n: nat)
    requires
        n <= s.len(),
        forall|i: int| 0 <= i < n ==> s[i] != 0,
        n == s.len() || s[n as int] == 0,
    ensures
        run_len(s) == n,
    decreases n,
{
    if n > 0 {
        lemma_run_len_is(s.drop_first(), (n - 1) as nat);
    }
}

/// The blocks of a short payload hold one byte more than the payload and no
/// zero byte.
pub proof fn lemma_stuff_shape(payload: Seq<u8>)
    requires
        payload.len() <= 253,
    ensures
        stuff(payload).len() == payload.len() + 1,
        zero_free(stuff(payload)),
    decreases payload.len(),
{
    let n = run_len(payload) as int;
    lemma_run_len_bounds(payload);
    let block = seq![(n + 1) as u8] + payload.take(n);
    assert(zero_free(block));
    if n < payload.len() {
        lemma_stuff_shape(payload.skip(n + 1));
    }
}

/// Reading back the blocks of a short payload gives the payload.
pub proof fn lemma_unstuff_stuff(payload: Seq<u8>)
    requires
        payload.len() <= 253,
    ensures
        unstuff(stuff(payload)) == Some(payload),
    decreases payload.len(),
{
    let n = run_len(payload) as int;
    lemma_run_len_bounds(payload);
    let block = seq![(n + 1) as u8] + payload.take(n);
    if n < payload.len() {
        let rest = payload.skip(n + 1);
        lemma_stuff_shape(rest);
        lemma_unstuff_stuff(rest);
        assert((block + stuff(rest)).skip(n + 1) == stuff(rest));
    }
}

/// `rest` read after `prefix`: `prefix` followed by the payload of `rest`,
/// if `rest` has one.
pub open spec fn after(prefix: Seq<u8>, rest: Option<Seq<u8>>) -> Option<Seq<u8>> {
    match rest {
        Some(r) => Some(prefix + r),
        None => None,
    }
}

fn scan_run(payload: &[u8], start: usize) -> (end: usize)
    requires
        start <= payload.len(),
    ensures
        start <= end <= payload.len(),
        end - start == run_len(payload@.skip(start as int)),
{
    let mut end: usize = start;
    while end < payload.len() && payload[end] != 0
        invariant
            start <= end <= payload.len(),
            forall|k: int| start <= k < end ==> payload@[k] != 0,
        decreases payload.len() - end,
    {
        end = end + 1;
    }
    proof {
        lemma_run_len_is(payload@.skip(start as int), (end - start) as nat);
    }
    end
}

fn push_range(out: &mut Vec<u8>, src: &[u8], from: usize, to: usize)
    requires
        from <= to <= src.len(),
    ensures
        final(out)@ == old(out)@ + src@.subrange(from as int, to as int),
{
    let mut k: usize = from;
    while k < to
        invariant
            from <= k <= to <= src.len(),
            out@ == old(out)@ + src@.subrange(from as int, k as int),
        decreases to - k,
    {
        out.push(src[k]);
        k = k + 1;
    }
}

/// Encodes `payload` into one frame.
///
/// A payload of more than `MAX_PAYLOAD` bytes has no frame of at most
/// `BUF_SIZE` bytes and is refused; nothing is ever truncated.
pub fn encode(payload: &[u8]) -> (frame: Option<Vec<u8>>)
    ensures
        frame is Some <==> payload@.len() <= MAX_PAYLOAD,
        frame matches Some(f) ==> {
            &&& f@ == encode_spec(payload@)
            &&& f@.len() == payload@.len() + 2 <= BUF_SIZE
            &&& f@.last() == 0
            &&& zero_free(f@.drop_last())
        },
{
    if payload.len() > MAX_PAYLOAD {
        return None;
    }
    let mut out: Vec<u8> = Vec::new();
    let mut start: usize = 0;
    assert(payload@.skip(0) == payload@);
    loop
        invariant_except_break
            start <= payload.len() <= MAX_PAYLOAD,
            stuff(payload@) == out@ + stuff(payload@.skip(start as int)),
        ensures
            out@ == stuff(payload@),
        decreases payload.len() - start,
    {
        let end = scan_run(payload, start);
        let code: u8 = (end - start + 1) as u8;
        out.push(code);
        push_range(&mut out, payload, start, end);
        if end == payload.len() {
            break ;
        }
        assert(payload@.skip(start as int).skip(end - start + 1) == payload@.skip(end + 1));
        start = end + 1;
    }
    out.push(0);
    proof {
        lemma_frame_shape(payload@);
    }
    Some(out)
}

/// Reads a chain of blocks back into the payload it stands for.
pub(crate) fn unstuff_exec(body: &[u8]) -> (payload: Option<Vec<u8>>)
    requires
        zero_free(body@),
    ensures
        payload matches Some(p) ==> unstuff(body@) == Some(p@),
        payload is None ==> unstuff(body@) is None,
{
    if body.len() == 0 {
        return None;
    }
    let mut out: Vec<u8> = Vec::new();
    let mut pos: usize = 0;
    assert(body@.skip(0) == body@);
    loop
        invariant_except_break
            pos < body.len(),
            zero_free(body@),
            unstuff(body@) == after(out@, unstuff(body@.skip(pos as int))),
        ensures
            unstuff(body@) == Some(out@),
        decreases body.len() - pos,
    {
        let ghost rest = body@.skip(pos as int);
        let ghost before = out@;
        let code: usize = body[pos] as usize;
        if code > body.len() - pos {
            return None;
        }
        push_range(&mut out, body, pos + 1, pos + code);
        if pos + code == body.len() {
            break ;
        }
        if code != 0xFF {
            out.push(0);
        }
        proof {
            let block = rest.subrange(1, code as int) + gap(rest[0]);
            let next = rest.skip(code as int);
            assert(next == body@.skip(pos + code));
            if let Some(r) = unstuff(next) {
                assert(before + (block + r) == out@ + r);
            }
        }
        pos = pos + code;
    }
    Some(out)
}

/// Decodes one complete frame, delimiter included, into its payload.
///
/// `None` for anything that is not exactly one well-formed frame: no
/// delimiter at the end, a delimiter elsewhere, no block at all, or a last
/// block that is cut short.
pub fn decode(frame: &[u8]) -> (payload: Option<Vec<u8>>)
    ensures
        payload matches Some(p) ==> decode_spec(frame@) == Some(p@),
        payload is None ==> decode_spec(frame@) is None,
{
    let n = frame.len();
    if n == 0 || frame[n - 1] != 0 {
        return None;
    }
    let mut k: usize = 0;
    while k < n - 1
        invariant
            k <= n - 1,
            n == frame.len(),
            forall|j: int| 0 <= j < k ==> frame@[j] != 0,
        decreases n - 1 - k,
    {
        if frame[k] == 0 {
            assert(frame@.drop_last()[k as int] == 0);
            return None;
        }
        k = k + 1;
    }
    let body = slice_subrange(frame, 0, n - 1);
    assert(body@ == frame@.drop_last());
    unstuff_exec(body)
}

/// Decoding the frame of a payload gives the payload back, whatever bytes
/// the payload holds, the delimiter value included.
pub proof fn lemma_round_trip(payload: Seq<u8>)
    requires
        payload.len() <= MAX_PAYLOAD,
    ensures
        decode_spec(encode_spec(payload)) == Some(payload),
{
    lemma_stuff_shape(payload);
    lemma_unstuff_stuff(payload);
    assert(encode_spec(payload).drop_last() == stuff(payload));
}

/// The frame of a payload is two bytes longer than the payload, and the
/// delimiter occurs in it at the last position only.
pub proof fn lemma_frame_shape(payload: Seq<u8>)
    requires
        payload.len() <= MAX_PAYLOAD,
    ensures
        encode_spec(payload).len() == payload.len() + 2,
        encode_spec(payload).last() == 0,
        zero_free(encode_spec(payload).drop_last()),
{
    lemma_stuff_shape(payload);
}

} // verus!
