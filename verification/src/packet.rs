//! Packets: the units that travel on the wire.

use crate::sequence::SequenceNumber;
use vstd::prelude::*;
use vstd::slice::slice_to_vec;
use vstd::std_specs::cmp::PartialEqSpecImpl;

verus! {

/// The three kinds of packet.
#[derive(Debug, Clone, Copy, PartialEq, Eq, Hash, Structural)]
pub enum UdpPacketType {
    /// Opens the connection and fixes the position at which the stream starts.
    Open,
    /// Carries payload bytes, or nothing but the current acknowledgment and
    /// window when the payload is empty.
    Data,
    /// Ends the connection.
    Close,
}

/// One unit on the wire. A packet is never changed once it is built: a packet
/// that is sent again is the very same value.
#[derive(Debug, Eq)]
pub struct UdpPacket {
    pub packet_type: UdpPacketType,
    pub sequence_number: SequenceNumber,
    pub ack_number: SequenceNumber,
    pub window: u32,
    pub payload: Vec<u8>,
}

/// What a packet holds, with its payload as a sequence of bytes.
pub struct PacketView {
    pub packet_type: UdpPacketType,
    pub sequence_number: SequenceNumber,
    pub ack_number: SequenceNumber,
    pub window: u32,
    pub payload: Seq<u8>,
}

impl PacketView {
    /// Only a data packet carries payload, and a close packet advertises no
    /// receive window.
    pub open spec fn well_formed(self) -> bool {
        &&& self.packet_type != UdpPacketType::Data ==> self.payload.len() == 0
        &&& self.packet_type == UdpPacketType::Close ==> self.window == 0
    }

    /// The data packet with these fields.
    pub open spec fn data(
        sequence_number: SequenceNumber,
        ack_number: SequenceNumber,
        window: u32,
        payload: Seq<u8>,
    ) -> PacketView {
        PacketView {
            packet_type: UdpPacketType::Data,
            sequence_number,
            ack_number,
            window,
            payload,
        }
    }

    /// The open packet with these fields.
    pub open spec fn open(
        sequence_number: SequenceNumber,
        ack_number: SequenceNumber,
        window: u32,
    ) -> PacketView {
        PacketView {
            packet_type: UdpPacketType::Open,
            sequence_number,
            ack_number,
            window,
            payload: Seq::empty(),
        }
    }

    /// The close packet with these fields. Its window is zero: the sender of
    /// a close packet takes in nothing more.
    pub open spec fn close(sequence_number: SequenceNumber, ack_number: SequenceNumber) -> PacketView {
        PacketView {
            packet_type: UdpPacketType::Close,
            sequence_number,
            ack_number,
            window: 0,
            payload: Seq::empty(),
        }
    }

    /// The position at which the packet ends. A packet takes one position
    /// however long its payload is, so it ends where it stands.
    pub open spec fn end_sequence_number(self) -> SequenceNumber {
        self.sequence_number
    }
}

impl View for UdpPacket {
    type V = PacketView;

    open spec fn view(&self) -> PacketView {
        PacketView {
            packet_type: self.packet_type,
            sequence_number: self.sequence_number,
            ack_number: self.ack_number,
            window: self.window,
            payload: self.payload@,
        }
    }
}

impl PartialEq for UdpPacket {
    /// Two packets are equal when all their fields are, the payload byte
    /// for byte.
    fn eq(&self, other: &UdpPacket) -> (equal: bool) {
        if self.packet_type != other.packet_type {
            return false;
        }
        if self.sequence_number != other.sequence_number || self.ack_number != other.ack_number {
            return false;
        }
        if self.window != other.window || self.payload.len() != other.payload.len() {
            return false;
        }
        let length: usize = self.payload.len();
        let mut at: usize = 0;
        while at < length
            invariant
                at <= length,
                length == self.payload@.len(),
                length == other.payload@.len(),
                forall|before: int|
                    0 <= before < at ==> self.payload@[before] == other.payload@[before],
            decreases length - at,
        {
            if self.payload[at] != other.payload[at] {
                return false;
            }
            at = at + 1;
        }
        assert(self.payload@ =~= other.payload@);
        true
    }
}

impl PartialEqSpecImpl for UdpPacket {
    open spec fn obeys_eq_spec() -> bool {
        true
    }

    open spec fn eq_spec(&self, other: &UdpPacket) -> bool {
        self@ == other@
    }
}

impl Clone for UdpPacket {
    /// A second packet that holds what this one holds.
    fn clone(&self) -> (copy: UdpPacket)
        ensures
            copy@ == self@,
    {
        UdpPacket {
            packet_type: self.packet_type,
            sequence_number: self.sequence_number,
            ack_number: self.ack_number,
            window: self.window,
            payload: self.payload.clone(),
        }
    }
}

impl UdpPacket {
    /// Builds a data packet that carries a copy of `payload`.
    pub fn data(
        sequence_number: SequenceNumber,
        ack_number: SequenceNumber,
        window: u32,
        payload: &[u8],
    ) -> (packet: UdpPacket)
        ensures
            packet@ == PacketView::data(sequence_number, ack_number, window, payload@),
            packet@.well_formed(),
    {
        UdpPacket {
            packet_type: UdpPacketType::Data,
            sequence_number,
            ack_number,
            window,
            payload: slice_to_vec(payload),
        }
    }

    /// Builds an open packet. It carries no payload.
    pub fn open(sequence_number: SequenceNumber, ack_number: SequenceNumber, window: u32) -> (packet:
        UdpPacket)
        ensures
            packet@ == PacketView::open(sequence_number, ack_number, window),
            packet@.well_formed(),
    {
        UdpPacket {
            packet_type: UdpPacketType::Open,
            sequence_number,
            ack_number,
            window,
            payload: Vec::new(),
        }
    }

    /// Builds a close packet. It carries no payload and advertises a window
    /// of zero.
    pub fn close(sequence_number: SequenceNumber, ack_number: SequenceNumber) -> (packet: UdpPacket)
        ensures
            packet@ == PacketView::close(sequence_number, ack_number),
            packet@.well_formed(),
    {
        UdpPacket {
            packet_type: UdpPacketType::Close,
            sequence_number,
            ack_number,
            window: 0,
            payload: Vec::new(),
        }
    }

    /// The position at which this packet ends, which is the position it
    /// stands at.
    pub fn end_sequence_number(&self) -> (end: SequenceNumber)
        ensures
            end == self@.end_sequence_number(),
    {
        self.sequence_number
    }
}

} // verus!
