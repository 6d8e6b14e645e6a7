//! The sending side: one envelope in, one frame out.

use crate::envelope::CmdOrAck;
use crate::frame::{encode, encode_spec, zero_free, BUF_SIZE, MAX_PAYLOAD};
use crate::wire::Wire;
use vstd::prelude::*;

verus! {

/// Turns an envelope into the frame that is written to the transmitter.
///
/// An envelope whose bytes do not fit one frame has no frame: it is left
/// out, never cut.
pub fn frame_envelope<T: Wire>(envelope: &CmdOrAck<T>) -> (frame: Option<Vec<u8>>)
    ensures
        frame is Some <==> envelope.wire().len() <= MAX_PAYLOAD,
        frame matches Some(f) ==> {
            &&& f@ == encode_spec(envelope.wire())
            &&& f@.len() == envelope.wire().len() + 2 <= BUF_SIZE
            &&& f@.last() == 0
            &&& zero_free(f@.drop_last())
        },
{
    let bytes = envelope.to_bytes();
    encode(bytes.as_slice())
}

} // verus!
