//! The one-byte integrity digest carried by every envelope.
//!
//! A digest is the 64-bit FNV-1a hash of the bytes, folded to one byte by
//! XOR-ing its eight bytes together. It detects corruption; it is not a
//! cryptographic guarantee.

use std::hash::Hasher;
use vstd::prelude::*;

verus! {

/// Initial state of the 64-bit FNV-1a hash.
pub const FNV_OFFSET_BASIS: u64 = 0xcbf2_9ce4_8422_2325;

/// Multiplier of the 64-bit FNV-1a hash.
pub const FNV_PRIME: u64 = 0x0000_0100_0000_01b3;

/// One round of FNV-1a: mix the byte in, then multiply modulo 2^64.
pub open spec fn fnv1a_step(state: u64, byte: u8) -> u64 {
    (state ^ (byte as u64)).wrapping_mul(FNV_PRIME)
}

/// The FNV-1a state after hashing `bytes` in order, starting from `state`.
pub open spec fn fnv1a_from(state: u64, bytes: Seq<u8>) -> u64
    decreases bytes.len(),
{
    if bytes.len() == 0 {
        state
    } else {
        fnv1a_step(fnv1a_from(state, bytes.drop_last()), bytes.last())
    }
}

/// The 64-bit FNV-1a hash of `bytes`.
pub open spec fn fnv1a(bytes: Seq<u8>) -> u64 {
    fnv1a_from(FNV_OFFSET_BASIS, bytes)
}

/// Byte `i` (0 is the least significant) of a 64-bit value.
pub open spec fn byte_of(h: u64, i: u64) -> u8 {
    ((h >> (8 * i)) & 0xff) as u8
}

/// The XOR of the eight bytes of a 64-bit value.
pub open spec fn xor_fold(h: u64) -> u8 {
    byte_of(h, 0) ^ byte_of(h, 1) ^ byte_of(h, 2) ^ byte_of(h, 3) ^ byte_of(h, 4) ^ byte_of(h, 5)
        ^ byte_of(h, 6) ^ byte_of(h, 7)
}

/// The digest of a byte sequence.
pub open spec fn checksum(bytes: Seq<u8>) -> u8 {
    xor_fold(fnv1a(bytes))
}

/// Hashes `bytes` with `fnv::FnvHasher`, started from its default state.
///
/// Trusted: the hasher starts at the FNV offset basis, and for every byte
/// XORs it into the state and multiplies the state by the FNV prime,
/// wrapping at 64 bits; `finish` returns the state.
#[verifier::external_body]
fn fnv_hash(bytes: &[u8]) -> (h: u64)
    ensures
        h == fnv1a(bytes@),
{
    let mut hasher = fnv::FnvHasher::default();
    hasher.write(bytes);
    hasher.finish()
}

/// Byte `i` (0 is the least significant) of a 64-bit value.
fn byte_at(h: u64, i: u64) -> (b: u8)
    requires
        i < 8,
    ensures
        b == byte_of(h, i),
{
    ((h >> (8 * i)) & 0xff) as u8
}

/// Folds a 64-bit hash to one byte by XOR-ing its eight bytes.
pub fn fold(h: u64) -> (r: u8)
    ensures
        r == xor_fold(h),
{
    byte_at(h, 0) ^ byte_at(h, 1) ^ byte_at(h, 2) ^ byte_at(h, 3) ^ byte_at(h, 4) ^ byte_at(h, 5)
        ^ byte_at(h, 6) ^ byte_at(h, 7)
}

/// Computes the digest of `bytes`.
pub fn csum(bytes: &[u8]) -> (c: u8)
    ensures
        c == checksum(bytes@),
{
    fold(fnv_hash(bytes))
}

} // verus!
