//! The input record that the two peers exchange, one per player per frame.
//!
//! On the wire a record is twelve bytes with no padding: the frame of the
//! swing as eight bytes, then its offset as four, both little-endian.

use crate::time::{FrameOffset, INVALID_FRAME};
use vstd::bytes::{
    lemma_auto_spec_u32_to_from_le_bytes, lemma_auto_spec_u64_to_from_le_bytes,
    spec_u32_from_le_bytes, spec_u32_to_le_bytes, spec_u64_from_le_bytes, spec_u64_to_le_bytes,
    u32_from_le_bytes, u32_to_le_bytes, u64_from_le_bytes, u64_to_le_bytes,
};
use vstd::prelude::*;
use vstd::slice::slice_subrange;

verus! {

/// Bytes in one input record on the wire.
pub const WIRE_LEN: usize = 12;

/// One player's input for one frame: when the player swung, or the marker for
/// no point in time if the player did not.
#[derive(Clone, Copy, Debug, PartialEq, Eq, Structural, Hash)]
pub struct SendInput {
    pub attacking: FrameOffset,
}

impl SendInput {
    /// The record on the wire.
    pub open spec fn wire_spec(self) -> Seq<u8> {
        spec_u64_to_le_bytes(self.attacking.frame) + spec_u32_to_le_bytes(self.attacking.offset)
    }

    /// The record that twelve bytes from the wire stand for.
    pub open spec fn unwire_spec(bytes: Seq<u8>) -> SendInput {
        SendInput {
            attacking: FrameOffset {
                frame: spec_u64_from_le_bytes(bytes.subrange(0, 8)),
                offset: spec_u32_from_le_bytes(bytes.subrange(8, 12)),
            },
        }
    }

    /// The input of a player who did nothing.
    pub fn idle() -> (r: SendInput)
        ensures
            r.attacking == (FrameOffset { frame: INVALID_FRAME, offset: 0 }),
            !r.attacking.is_valid(),
    {
        SendInput { attacking: FrameOffset::invalid() }
    }

    /// The input of a player who swung at `at`.
    pub fn swing(at: FrameOffset) -> (r: SendInput)
        ensures
            r.attacking == at,
    {
        SendInput { attacking: at }
    }

    /// Writes the record as it goes over the wire.
    pub fn to_bytes(&self) -> (bytes: Vec<u8>)
        ensures
            bytes@ == self.wire_spec(),
            bytes@.len() == WIRE_LEN,
            Self::unwire_spec(bytes@) == *self,
    {
        let mut bytes = u64_to_le_bytes(self.attacking.frame);
        let mut tail = u32_to_le_bytes(self.attacking.offset);
        bytes.append(&mut tail);
        proof {
            lemma_wire_round_trip(*self);
        }
        bytes
    }

    /// Reads a record off the wire.  Any twelve bytes are a record; anything
    /// else is none.
    pub fn from_bytes(bytes: &[u8]) -> (r: Option<SendInput>)
        ensures
            r is Some <==> bytes@.len() == WIRE_LEN,
            r matches Some(input) ==> input == Self::unwire_spec(bytes@),
    {
        if bytes.len() != WIRE_LEN {
            return None;
        }
        let frame = u64_from_le_bytes(slice_subrange(bytes, 0, 8));
        let offset = u32_from_le_bytes(slice_subrange(bytes, 8, 12));
        Some(SendInput { attacking: FrameOffset { frame, offset } })
    }
}

/// A record written to the wire and read back is the record.
pub proof fn lemma_wire_round_trip(input: SendInput)
    ensures
        input.wire_spec().len() == WIRE_LEN,
        SendInput::unwire_spec(input.wire_spec()) == input,
{
    lemma_auto_spec_u64_to_from_le_bytes();
    lemma_auto_spec_u32_to_from_le_bytes();
    let head = spec_u64_to_le_bytes(input.attacking.frame);
    let tail = spec_u32_to_le_bytes(input.attacking.offset);
    assert(head.len() == 8);
    assert(tail.len() == 4);
    assert((head + tail).subrange(0, 8) =~= head);
    assert((head + tail).subrange(8, 12) =~= tail);
}

} // verus!
