//! A counter on a circle: it wraps, and two counters are compared by the
//! shorter way round.
//!
//! The halves of the keyboard keep such counters for their LED animation
//! and bring them together again from time to time.

use vstd::prelude::*;

verus! {

/// A counter that wraps.
#[derive(Debug, PartialEq, Eq, Hash)]
pub struct WrappingID<T>(T);

impl<T: Copy> Clone for WrappingID<T> {
    fn clone(&self) -> (copy: Self)
        ensures
            copy == *self,
    {
        *self
    }
}

impl<T: Copy> Copy for WrappingID<T> {

}

impl<T> View for WrappingID<T> {
    type V = T;

    /// The value of the counter.
    closed spec fn view(&self) -> T {
        self.0
    }
}

/// `value` moved by `by` steps on the circle of the 16-bit values.
pub open spec fn moved(value: u16, by: int) -> u16 {
    ((value + by) % 65536) as u16
}

/// The signed way from `from` to `to` on the circle of the 16-bit values,
/// the shorter way round. Values that lie exactly opposite each other have
/// no shorter way, and the result is 0.
pub open spec fn way(from: u16, to: u16) -> int {
    let ahead = (to - from) % 65536;
    if ahead <= 32767 {
        ahead
    } else if ahead == 32768 {
        0
    } else {
        ahead - 65536
    }
}

impl WrappingID<u16> {
    /// A counter at `val`.
    pub fn new(val: u16) -> (id: Self)
        ensures
            id@ == val,
    {
        WrappingID(val)
    }

    /// The value of the counter.
    pub fn get(self) -> (val: u16)
        ensures
            val == self@,
    {
        self.0
    }

    /// Moves the counter by `other` steps, forwards or backwards.
    pub fn add(&mut self, other: i16)
        ensures
            final(self)@ == moved(old(self)@, other as int),
    {
        self.0 = self.0.wrapping_add_signed(other);
    }

    /// Moves the counter one step forwards.
    pub fn inc(&mut self)
        ensures
            final(self)@ == moved(old(self)@, 1),
    {
        self.0 = self.0.wrapping_add(1);
    }

    /// The signed way from `rhs` to this counter, the shorter way round.
    pub fn delta(self, rhs: Self) -> (d: i16)
        ensures
            d == way(rhs@, self@),
    {
        let ahead: u16 = self.0.wrapping_sub(rhs.0);
        if ahead <= 32767 {
            ahead as i16
        } else {
            let back: u16 = 65535 - (ahead - 1);
            if back > 32767 {
                0
            } else {
                -(back as i16)
            }
        }
    }
}

/// Moving a counter by the way to another counter arrives there, unless
/// the two lie exactly opposite each other.
pub proof fn lemma_way_arrives(from: u16, to: u16)
    requires
        (to - from) % 65536 != 32768,
    ensures
        moved(from, way(from, to)) == to,
{
}

} // verus!
