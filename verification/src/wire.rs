//! The byte format of messages: tag first, then the fields in order,
//! integers at fixed width with the least significant byte first.

use vstd::prelude::*;

verus! {

/// A message with a byte format.
///
/// `wire` says which bytes stand for a message. No two messages share their
/// bytes, so reading is the inverse of writing: `from_bytes` returns the one
/// message that the bytes stand for, and `None` for bytes that stand for
/// none.
pub trait Wire: Sized {
    /// The bytes that stand for the message.
    spec fn wire(&self) -> Seq<u8>;

    /// Different messages have different bytes.
    proof fn lemma_wire_injective(a: &Self, b: &Self)
        requires
            a.wire() == b.wire(),
        ensures
            a == b,
    ;

    /// Writes the message.
    fn to_bytes(&self) -> (out: Vec<u8>)
        ensures
            out@ == self.wire(),
    ;

    /// Reads a message from exactly these bytes: the message that they
    /// stand for, or `None` where they stand for none.
    fn from_bytes(bytes: &[u8]) -> (msg: Option<Self>)
        ensures
            msg matches Some(m) ==> m.wire() == bytes@,
            msg is None ==> forall|m: Self| #[trigger] m.wire() != bytes@,
    ;
}

/// The message that `bytes` stand for, if they stand for one.
pub open spec fn parse<T: Wire>(bytes: Seq<u8>) -> Option<T> {
    if exists|m: T| #[trigger] m.wire() == bytes {
        Some(choose|m: T| #[trigger] m.wire() == bytes)
    } else {
        None
    }
}

/// Reading what was written gives the message back.
pub proof fn lemma_parse_wire<T: Wire>(m: T)
    ensures
        parse::<T>(m.wire()) == Some(m),
{
    let found = choose|x: T| #[trigger] x.wire() == m.wire();
    T::lemma_wire_injective(&found, &m);
}

/// What is read writes back to the bytes it was read from.
pub proof fn lemma_wire_parse<T: Wire>(bytes: Seq<u8>)
    ensures
        parse::<T>(bytes) matches Some(m) ==> m.wire() == bytes,
{
}

/// What `from_bytes` promises of its result makes the result `parse`.
pub proof fn lemma_read_is_parse<T: Wire>(bytes: Seq<u8>, msg: Option<T>)
    requires
        msg matches Some(m) ==> m.wire() == bytes,
        msg is None ==> forall|m: T| #[trigger] m.wire() != bytes,
    ensures
        msg == parse::<T>(bytes),
{
    if let Some(m) = msg {
        lemma_parse_wire(m);
    }
}

/// The two bytes of a 16-bit integer, least significant first.
pub open spec fn le16(v: u16) -> Seq<u8> {
    seq![(v % 256) as u8, (v / 256) as u8]
}

/// The four bytes of a 32-bit integer, least significant first.
pub open spec fn le32(v: u32) -> Seq<u8> {
    seq![
        (v % 256) as u8,
        ((v / 256) % 256) as u8,
        ((v / 256 / 256) % 256) as u8,
        (v / 256 / 256 / 256) as u8,
    ]
}

/// Appends the two bytes of `v`, least significant first.
pub fn put_le16(out: &mut Vec<u8>, v: u16)
    ensures
        final(out)@ == old(out)@ + le16(v),
{
    out.push((v % 256) as u8);
    out.push((v / 256) as u8);
}

/// The 16-bit integer whose bytes, least significant first, are `lo`, `hi`.
pub fn get_le16(lo: u8, hi: u8) -> (v: u16)
    ensures
        le16(v) == seq![lo, hi],
        v == lo + 256 * hi,
{
    (hi as u16) * 256 + (lo as u16)
}

/// Appends the four bytes of `v`, least significant first.
pub fn put_le32(out: &mut Vec<u8>, v: u32)
    ensures
        final(out)@ == old(out)@ + le32(v),
{
    out.push((v % 256) as u8);
    out.push(((v / 256) % 256) as u8);
    out.push(((v / 256 / 256) % 256) as u8);
    out.push((v / 256 / 256 / 256) as u8);
}

/// The 32-bit integer whose bytes, least significant first, are `b0` to
/// `b3`.
pub fn get_le32(b0: u8, b1: u8, b2: u8, b3: u8) -> (v: u32)
    ensures
        le32(v) == seq![b0, b1, b2, b3],
        v == b0 + 256 * b1 + 65536 * b2 + 16777216 * b3,
{
    let w2: u32 = (b3 as u32) * 256 + (b2 as u32);
    let w1: u32 = w2 * 256 + (b1 as u32);
    let v: u32 = w1 * 256 + (b0 as u32);
    assert(v / 256 == w1 && v % 256 == b0);
    assert(w1 / 256 == w2 && w1 % 256 == b1);
    assert(w2 / 256 == b3 && w2 % 256 == b2);
    v
}

/// A 16-bit integer is determined by its two bytes.
pub proof fn lemma_le16_injective(a: u16, b: u16)
    requires
        le16(a) == le16(b),
    ensures
        a == b,
{
}

/// A 32-bit integer is determined by its four bytes.
pub proof fn lemma_le32_injective(a: u32, b: u32)
    requires
        le32(a) == le32(b),
    ensures
        a == b,
{
    assert(le32(a)[0] == le32(b)[0]);
    assert(le32(a)[1] == le32(b)[1]);
    assert(le32(a)[2] == le32(b)[2]);
    assert(le32(a)[3] == le32(b)[3]);
}

} // verus!
