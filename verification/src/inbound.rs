//! The receiving side: bytes in, decisions out.
//!
//! Every received byte goes to the accumulator. A completed frame is read as
//! an envelope and checked. A sound command is acknowledged and handed to
//! the application; a sound acknowledgement wakes the sender that waits for
//! it. Everything else is dropped: the sender's timeout recovers the loss.

use crate::accumulator::{feed_spec, CobsAccumulator, Fed, FeedResult};
use crate::frame::{
    encode_spec, lemma_stuff_shape, lemma_unstuff_stuff, stuff, zero_free, BUF_SIZE, MAX_PAYLOAD,
};
use crate::envelope::{ack_checksum, Ack, CmdOrAck};
use crate::waiters::{waiter_of, WaiterRegistry};
use crate::wire::{lemma_parse_wire, lemma_read_is_parse, parse, Wire};
use vstd::prelude::*;

verus! {

/// Why something received was dropped.
#[derive(Debug, Clone, Copy, PartialEq, Eq)]
pub enum Dropped {
    /// The frame outgrew the buffer.
    Oversized,
    /// The frame is not a complete chain of blocks.
    Malformed,
    /// The frame does not spell an envelope.
    Undecodable,
    /// The checksum of the envelope does not match what it carries.
    BadChecksum,
}

/// What the caller has to do after a byte was received.
#[derive(Debug, PartialEq, Eq)]
pub enum Received<U> {
    /// Nothing: the frame is not complete yet.
    Nothing,
    /// Nothing but, where wanted, a log entry.
    Dropped(Dropped),
    /// Put `ack` on the outbound queue, then hand `cmd` to the application.
    Command { ack: Ack, cmd: U },
    /// Wake the sender with this handle: its command arrived.
    Acked { uuid: u8, handle: u32 },
    /// Nothing: the acknowledgement is sound, but nobody waits for it.
    Unmatched { uuid: u8 },
}

/// The decision on a received envelope: the waiters left, and what to do.
pub open spec fn on_envelope<U: Wire>(envelope: CmdOrAck<U>, waiters: Map<u8, u32>) -> (
    Map<u8, u32>,
    Received<U>,
) {
    match envelope {
        CmdOrAck::Cmd(c) => if c.valid() {
            (waiters, Received::Command { ack: acknowledgement(c.uuid), cmd: c.cmd })
        } else {
            (waiters, Received::Dropped(Dropped::BadChecksum))
        },
        CmdOrAck::Ack(a) => if a.valid() {
            match waiter_of(waiters, a.uuid) {
                Some(handle) => (
                    waiters.remove(a.uuid),
                    Received::Acked { uuid: a.uuid, handle },
                ),
                None => (waiters, Received::Unmatched { uuid: a.uuid }),
            }
        } else {
            (waiters, Received::Dropped(Dropped::BadChecksum))
        },
    }
}

/// The sound acknowledgement of the command with this identifier.
pub open spec fn acknowledgement(uuid: u8) -> Ack {
    Ack { uuid, csum: ack_checksum(uuid) }
}

/// The decision on the payload of a received frame.
pub open spec fn on_frame<U: Wire>(payload: Seq<u8>, waiters: Map<u8, u32>) -> (
    Map<u8, u32>,
    Received<U>,
) {
    match parse::<CmdOrAck<U>>(payload) {
        Some(envelope) => on_envelope(envelope, waiters),
        None => (waiters, Received::Dropped(Dropped::Undecodable)),
    }
}

/// The decision on a received byte: the bytes kept, the waiters left, and
/// what to do.
pub open spec fn on_byte<U: Wire>(pending: Seq<u8>, waiters: Map<u8, u32>, byte: u8) -> (
    Seq<u8>,
    Map<u8, u32>,
    Received<U>,
) {
    let (kept, fed) = feed_spec(pending, byte);
    match fed {
        Fed::Incomplete => (kept, waiters, Received::Nothing),
        Fed::Oversized => (kept, waiters, Received::Dropped(Dropped::Oversized)),
        Fed::Malformed => (kept, waiters, Received::Dropped(Dropped::Malformed)),
        Fed::FrameReady(payload) => {
            let (left, todo) = on_frame::<U>(payload, waiters);
            (kept, left, todo)
        },
    }
}

/// The decisions while `bytes` are received in order: the bytes kept and
/// the waiters left afterwards, and what to do after each byte.
pub open spec fn on_bytes<U: Wire>(pending: Seq<u8>, waiters: Map<u8, u32>, bytes: Seq<u8>) -> (
    Seq<u8>,
    Map<u8, u32>,
    Seq<Received<U>>,
)
    decreases bytes.len(),
{
    if bytes.len() == 0 {
        (pending, waiters, Seq::<Received<U>>::empty())
    } else {
        let (kept, left, done) = on_bytes::<U>(pending, waiters, bytes.drop_last());
        let (kept, left, todo) = on_byte::<U>(kept, left, bytes.last());
        (kept, left, done.push(todo))
    }
}

/// Decides on a received envelope.
pub fn handle_envelope<U: Wire>(envelope: CmdOrAck<U>, waiters: &mut WaiterRegistry) -> (todo:
    Received<U>)
    ensures
        (final(waiters)@, todo) == on_envelope(envelope, old(waiters)@),
{
    match envelope {
        CmdOrAck::Cmd(c) => {
            if c.validate() {
                let ack = c.ack();
                Received::Command { ack, cmd: c.cmd }
            } else {
                Received::Dropped(Dropped::BadChecksum)
            }
        },
        CmdOrAck::Ack(a) => {
            match a.validate() {
                Some(a) => {
                    match waiters.resolve(a.uuid) {
                        Some(handle) => Received::Acked { uuid: a.uuid, handle },
                        None => {
                            Received::Unmatched { uuid: a.uuid }
                        },
                    }
                },
                None => Received::Dropped(Dropped::BadChecksum),
            }
        },
    }
}

/// Decides on the payload of a received frame.
pub fn handle_frame<U: Wire>(payload: &[u8], waiters: &mut WaiterRegistry) -> (todo: Received<U>)
    ensures
        (final(waiters)@, todo) == on_frame::<U>(payload@, old(waiters)@),
{
    let read = CmdOrAck::<U>::from_bytes(payload);
    proof {
        lemma_read_is_parse::<CmdOrAck<U>>(payload@, read);
    }
    match read {
        Some(envelope) => handle_envelope(envelope, waiters),
        None => Received::Dropped(Dropped::Undecodable),
    }
}

/// The receiving side of a link.
pub struct EventInProcessor {
    accumulator: CobsAccumulator,
}

impl View for EventInProcessor {
    type V = Seq<u8>;

    /// The bytes received since the last frame boundary.
    closed spec fn view(&self) -> Seq<u8> {
        self.accumulator@
    }
}

impl EventInProcessor {
    /// A receiver at a frame boundary.
    pub fn new() -> (receiver: Self)
        ensures
            receiver@ == Seq::<u8>::empty(),
    {
        EventInProcessor { accumulator: CobsAccumulator::new() }
    }

    /// Takes the next byte of the stream and decides what follows from it.
    pub fn receive<U: Wire>(&mut self, byte: u8, waiters: &mut WaiterRegistry) -> (todo: Received<
        U,
    >)
        ensures
            (final(self)@, final(waiters)@, todo) == on_byte::<U>(
                old(self)@,
                old(waiters)@,
                byte,
            ),
    {
        match self.accumulator.feed(byte) {
            FeedResult::Incomplete => Received::Nothing,
            FeedResult::Oversized => Received::Dropped(Dropped::Oversized),
            FeedResult::Malformed => Received::Dropped(Dropped::Malformed),
            FeedResult::FrameReady(payload) => handle_frame(payload.as_slice(), waiters),
        }
    }
}

/// Non-zero bytes that fit are kept as they come, and nothing follows from
/// them.
proof fn lemma_body_received<U: Wire>(pending: Seq<u8>, waiters: Map<u8, u32>, body: Seq<u8>)
    requires
        zero_free(body),
        pending.len() + body.len() <= BUF_SIZE,
    ensures
        on_bytes::<U>(pending, waiters, body) == (
            pending + body,
            waiters,
            Seq::new(body.len(), |i: int| Received::<U>::Nothing),
        ),
    decreases body.len(),
{
    if body.len() > 0 {
        lemma_body_received::<U>(pending, waiters, body.drop_last());
        assert(pending + body == (pending + body.drop_last()).push(body.last()));
    }
}

/// An envelope that arrives intact is received as what was sent. From a
/// frame boundary, the bytes of the frame of an envelope lead to nothing
/// until the last of them, then to the decision on that envelope, and the
/// receiver is at a frame boundary again.
pub proof fn lemma_frame_received<U: Wire>(envelope: CmdOrAck<U>, waiters: Map<u8, u32>)
    requires
        envelope.wire().len() <= MAX_PAYLOAD,
    ensures
        ({
            let frame = encode_spec(envelope.wire());
            let (kept, left, done) = on_bytes::<U>(Seq::<u8>::empty(), waiters, frame);
            &&& kept == Seq::<u8>::empty()
            &&& done.len() == frame.len()
            &&& (left, done.last()) == on_envelope(envelope, waiters)
            &&& forall|i: int| 0 <= i < done.len() - 1 ==> done[i] == Received::<U>::Nothing
        }),
{
    let body = stuff(envelope.wire());
    lemma_stuff_shape(envelope.wire());
    lemma_unstuff_stuff(envelope.wire());
    lemma_parse_wire(envelope);
    assert(encode_spec(envelope.wire()).drop_last() == body);
    lemma_body_received::<U>(Seq::<u8>::empty(), waiters, body);
    assert(Seq::<u8>::empty() + body == body);
}

/// An acknowledgement that arrives twice wakes nobody the second time and
/// leaves the registry as the first arrival left it. One that arrives for
/// an identifier without a waiter wakes nobody and changes nothing.
pub proof fn lemma_duplicate_ack<U: Wire>(ack: Ack, waiters: Map<u8, u32>)
    requires
        ack.valid(),
    ensures
        ({
            let first = on_envelope::<U>(CmdOrAck::Ack(ack), waiters);
            let second = on_envelope::<U>(CmdOrAck::Ack(ack), first.0);
            &&& second.0 == first.0
            &&& second.1 == Received::<U>::Unmatched { uuid: ack.uuid }
        }),
        !waiters.contains_key(ack.uuid) ==> on_envelope::<U>(CmdOrAck::Ack(ack), waiters) == (
            waiters,
            Received::<U>::Unmatched { uuid: ack.uuid },
        ),
{
}

/// A command or an acknowledgement whose checksum does not match is
/// dropped: no acknowledgement goes out, nothing reaches the application,
/// no sender is woken.
pub proof fn lemma_corrupted_dropped<U: Wire>(envelope: CmdOrAck<U>, waiters: Map<u8, u32>)
    requires
        match envelope {
            CmdOrAck::Cmd(c) => !c.valid(),
            CmdOrAck::Ack(a) => !a.valid(),
        },
    ensures
        on_envelope(envelope, waiters) == (waiters, Received::<U>::Dropped(Dropped::BadChecksum)),
{
}

} // verus!
