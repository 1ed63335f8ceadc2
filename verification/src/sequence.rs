//! Sequence numbers: positions of packets in a stream.

use vstd::prelude::*;
use vstd::std_specs::ops::AddSpecImpl;

verus! {

/// How many distinct sequence numbers there are before the counter wraps.
pub open spec fn sequence_space() -> int {
    0x1_0000_0000
}

/// The position of a packet in the stream. Every packet that takes a position
/// takes exactly one, whatever the size of its payload, and the counter wraps
/// at 32 bits.
#[derive(Debug, Clone, Copy, PartialEq, Eq, Hash, Structural)]
pub struct SequenceNumber(pub u32);

impl SequenceNumber {
    /// The position `slots` places after this one, wrapping at the width of
    /// the counter.
    pub open spec fn advanced_by(self, slots: int) -> SequenceNumber {
        SequenceNumber(((self.0 + slots) % sequence_space()) as u32)
    }

    /// The position that directly follows this one.
    pub open spec fn successor(self) -> SequenceNumber {
        self.advanced_by(1)
    }
}

/// The position that follows is the next number, and the first number of
/// all after the last one.
pub proof fn lemma_successor_wraps(position: SequenceNumber)
    ensures
        position.0 < u32::MAX ==> position.successor().0 == position.0 + 1,
        position.0 == u32::MAX ==> position.successor().0 == 0,
{
}

/// Moving on by `first` positions and then by `second` is moving on by
/// their sum: the wrap of the counter does not show in the result.
pub proof fn lemma_advanced_by_composes(start: SequenceNumber, first: int, second: int)
    ensures
        start.advanced_by(first).advanced_by(second) == start.advanced_by(first + second),
{
}

impl core::ops::Add for SequenceNumber {
    type Output = SequenceNumber;

    /// Adds two sequence numbers, wrapping at the width of the counter.
    fn add(self, rhs: SequenceNumber) -> (sum: SequenceNumber) {
        SequenceNumber(self.0.wrapping_add(rhs.0))
    }
}

impl AddSpecImpl for SequenceNumber {
    open spec fn obeys_add_spec() -> bool {
        true
    }

    open spec fn add_req(self, rhs: SequenceNumber) -> bool {
        true
    }

    open spec fn add_spec(self, rhs: SequenceNumber) -> SequenceNumber {
        self.advanced_by(rhs.0 as int)
    }
}

} // verus!
