//! Reassembly of frames from a stream that arrives one byte at a time.
//!
//! The accumulator keeps the bytes received since the last delimiter. A
//! delimiter closes the frame: the kept bytes are decoded and dropped. When
//! the kept bytes would outgrow `BUF_SIZE` they are dropped as well. Either
//! way reception goes on, and the next delimiter puts the accumulator back
//! at a frame boundary.

use crate::frame::{
    encode_spec, lemma_stuff_shape, lemma_unstuff_stuff, stuff, unstuff, unstuff_exec, zero_free,
    BUF_SIZE, MAX_PAYLOAD,
};
use vstd::prelude::*;

verus! {

/// What feeding one byte to an accumulator did, over payloads as sequences.
pub enum Fed {
    /// The byte was kept; the frame is not complete yet.
    Incomplete,
    /// The byte closed a well-formed frame with this payload.
    FrameReady(Seq<u8>),
    /// The frame outgrew the buffer and what was kept of it is dropped.
    Oversized,
    /// The byte closed a frame that is not a complete chain of blocks.
    Malformed,
}

/// What feeding one byte to an accumulator did.
#[derive(Debug)]
pub enum FeedResult {
    /// The byte was kept; the frame is not complete yet.
    Incomplete,
    /// The byte closed a well-formed frame with this payload.
    FrameReady(Vec<u8>),
    /// The frame outgrew the buffer and what was kept of it is dropped.
    Oversized,
    /// The byte closed a frame that is not a complete chain of blocks.
    Malformed,
}

impl View for FeedResult {
    type V = Fed;

    open spec fn view(&self) -> Fed {
        match self {
            FeedResult::Incomplete => Fed::Incomplete,
            FeedResult::FrameReady(p) => Fed::FrameReady(p@),
            FeedResult::Oversized => Fed::Oversized,
            FeedResult::Malformed => Fed::Malformed,
        }
    }
}

/// One step of reception: the bytes kept afterwards and the outcome, from
/// the bytes kept so far and the byte that arrives.
pub open spec fn feed_spec(pending: Seq<u8>, byte: u8) -> (Seq<u8>, Fed) {
    if byte == 0 {
        if pending.len() + 1 <= BUF_SIZE {
            match unstuff(pending) {
                Some(payload) => (Seq::<u8>::empty(), Fed::FrameReady(payload)),
                None => (Seq::<u8>::empty(), Fed::Malformed),
            }
        } else {
            (Seq::<u8>::empty(), Fed::Oversized)
        }
    } else {
        if pending.len() + 1 > BUF_SIZE {
            (seq![byte], Fed::Oversized)
        } else {
            (pending.push(byte), Fed::Incomplete)
        }
    }
}

/// The bytes kept after `bytes` have been fed in order.
pub open spec fn feed_all(pending: Seq<u8>, bytes: Seq<u8>) -> Seq<u8>
    decreases bytes.len(),
{
    if bytes.len() == 0 {
        pending
    } else {
        feed_spec(feed_all(pending, bytes.drop_last()), bytes.last()).0
    }
}

/// The payloads made ready while `bytes` are fed in order.
pub open spec fn frames_of(pending: Seq<u8>, bytes: Seq<u8>) -> Seq<Seq<u8>>
    decreases bytes.len(),
{
    if bytes.len() == 0 {
        Seq::<Seq<u8>>::empty()
    } else {
        let earlier = frames_of(pending, bytes.drop_last());
        match feed_spec(feed_all(pending, bytes.drop_last()), bytes.last()).1 {
            Fed::FrameReady(payload) => earlier.push(payload),
            _ => earlier,
        }
    }
}

/// Collects the bytes of a stream into frames.
pub struct CobsAccumulator {
    buf: Vec<u8>,
}

impl View for CobsAccumulator {
    type V = Seq<u8>;

    /// The bytes received since the last frame boundary.
    closed spec fn view(&self) -> Seq<u8> {
        self.buf@
    }
}

impl CobsAccumulator {
    #[verifier::type_invariant]
    spec fn inv(&self) -> bool {
        self.buf@.len() <= BUF_SIZE && zero_free(self.buf@)
    }

    /// An accumulator at a frame boundary.
    pub fn new() -> (acc: Self)
        ensures
            acc@ == Seq::<u8>::empty(),
    {
        CobsAccumulator { buf: Vec::new() }
    }

    /// The number of bytes kept, at most `BUF_SIZE`.
    pub fn pending(&self) -> (n: usize)
        ensures
            n == self@.len(),
            n <= BUF_SIZE,
    {
        proof {
            use_type_invariant(self);
        }
        self.buf.len()
    }

    /// Takes the next byte of the stream.
    pub fn feed(&mut self, byte: u8) -> (r: FeedResult)
        ensures
            (final(self)@, r@) == feed_spec(old(self)@, byte),
    {
        proof {
            use_type_invariant(&*self);
        }
        if byte == 0 {
            if self.buf.len() + 1 <= BUF_SIZE {
                let payload = unstuff_exec(self.buf.as_slice());
                self.buf = Vec::new();
                match payload {
                    Some(p) => FeedResult::FrameReady(p),
                    None => FeedResult::Malformed,
                }
            } else {
                self.buf = Vec::new();
                FeedResult::Oversized
            }
        } else {
            if self.buf.len() + 1 > BUF_SIZE {
                let mut kept: Vec<u8> = Vec::new();
                kept.push(byte);
                self.buf = kept;
                FeedResult::Oversized
            } else {
                let mut kept: Vec<u8> = Vec::new();
                std::mem::swap(&mut kept, &mut self.buf);
                kept.push(byte);
                self.buf = kept;
                FeedResult::Incomplete
            }
        }
    }
}

/// A delimiter puts the accumulator at a frame boundary, whatever it kept.
pub proof fn lemma_delimiter_resets(pending: Seq<u8>)
    ensures
        feed_spec(pending, 0u8).0 == Seq::<u8>::empty(),
{
}

/// Feeding `a` and then `b` is feeding `a + b`.
pub proof fn lemma_feed_concat(pending: Seq<u8>, a: Seq<u8>, b: Seq<u8>)
    ensures
        feed_all(pending, a + b) == feed_all(feed_all(pending, a), b),
        frames_of(pending, a + b) == frames_of(pending, a) + frames_of(feed_all(pending, a), b),
    decreases b.len(),
{
    if b.len() == 0 {
        assert(a + b == a);
    } else {
        assert((a + b).drop_last() == a + b.drop_last());
        lemma_feed_concat(pending, a, b.drop_last());
    }
}

/// Non-zero bytes that fit are kept as they come, and make no frame ready.
proof fn lemma_feed_body(pending: Seq<u8>, body: Seq<u8>)
    requires
        zero_free(body),
        pending.len() + body.len() <= BUF_SIZE,
    ensures
        feed_all(pending, body) == pending + body,
        frames_of(pending, body) == Seq::<Seq<u8>>::empty(),
    decreases body.len(),
{
    if body.len() > 0 {
        lemma_feed_body(pending, body.drop_last());
        assert(pending + body == (pending + body.drop_last()).push(body.last()));
    }
}

/// From a frame boundary, the bytes of one frame make exactly its payload
/// ready and end at a frame boundary again.
pub proof fn lemma_feed_frame(payload: Seq<u8>)
    requires
        payload.len() <= MAX_PAYLOAD,
    ensures
        feed_all(Seq::<u8>::empty(), encode_spec(payload)) == Seq::<u8>::empty(),
        frames_of(Seq::<u8>::empty(), encode_spec(payload)) == seq![payload],
{
    let body = stuff(payload);
    lemma_stuff_shape(payload);
    lemma_unstuff_stuff(payload);
    assert(encode_spec(payload).drop_last() == body);
    lemma_feed_body(Seq::<u8>::empty(), body);
}

/// Resynchronisation: whatever the accumulator kept and whatever bytes
/// arrive, once a delimiter has arrived the next frame is received intact.
pub proof fn lemma_resync(pending: Seq<u8>, junk: Seq<u8>, payload: Seq<u8>)
    requires
        payload.len() <= MAX_PAYLOAD,
    ensures
        feed_all(pending, junk.push(0u8)) == Seq::<u8>::empty(),
        frames_of(pending, junk.push(0u8) + encode_spec(payload)) == frames_of(
            pending,
            junk.push(0u8),
        ).push(payload),
        feed_all(pending, junk.push(0u8) + encode_spec(payload)) == Seq::<u8>::empty(),
{
    let first = junk.push(0u8);
    assert(first.drop_last() == junk);
    lemma_feed_concat(pending, first, encode_spec(payload));
    lemma_feed_frame(payload);
}

} // verus!
