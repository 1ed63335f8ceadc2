//! The send path: the packet builders of a connection, the events that ask
//! for a transmission, and the scheduler that turns a backlog of such events
//! into the one packet to transmit next.

use crate::connection::UdpConnectionVars;
use crate::packet::{PacketView, UdpPacket};
use crate::sequence::{lemma_advanced_by_composes, SequenceNumber};
use tokio::sync::mpsc::error::TryRecvError;
use tokio::sync::mpsc::UnboundedReceiver;
use vstd::prelude::*;

verus! {

/// The receiving half of tokio's unbounded channel. What it holds is out of
/// the verifier's sight: producers on other tasks fill it at any moment.
#[verifier::external_type_specification]
#[verifier::external_body]
#[verifier::reject_recursive_types(T)]
pub struct ExUnboundedReceiver<T>(UnboundedReceiver<T>);

/// The reason for which tokio's `try_recv` hands out no value.
#[verifier::external_type_specification]
#[verifier::external_body]
pub struct ExTryRecvError(TryRecvError);

/// `UnboundedReceiver::try_recv` takes the next value off the channel
/// without waiting, if there is one. Which of the two it is depends on what
/// the producers have done so far, so nothing is claimed of the result.
pub assume_specification<T>[ UnboundedReceiver::<T>::try_recv ](
    receiver: &mut UnboundedReceiver<T>,
) -> (polled: Result<T, TryRecvError>)
;

/// A request to the scheduler.
#[derive(Debug, PartialEq)]
pub enum SendEvent {
    /// Transmit this packet, built by the path that writes to the stream.
    Send(UdpPacket),
    /// Transmit this packet again, exactly as it was first sent.
    Resend(UdpPacket),
    /// The acknowledgment number of the connection has changed.
    AckUpdate,
    /// The receive window of the connection has changed.
    WindowUpdate,
    /// End the connection.
    Close,
}

/// What the scheduler has settled on transmitting.
#[derive(Debug, PartialEq)]
pub enum Emission {
    /// A packet that an event carried, to go out as it is.
    Packet(UdpPacket),
    /// A close packet, to be built from the state of the connection.
    Close,
    /// A data packet without payload that carries the current acknowledgment
    /// number and window, to be built from the state of the connection.
    Update,
}

impl SendEvent {
    /// What the scheduler transmits on meeting this event, and `None` for an
    /// update signal, which it takes in without transmitting anything yet.
    pub open spec fn spec_classify(self) -> Option<Emission> {
        match self {
            SendEvent::Send(packet) | SendEvent::Resend(packet) => Some(Emission::Packet(packet)),
            SendEvent::Close => Some(Emission::Close),
            SendEvent::AckUpdate | SendEvent::WindowUpdate => None,
        }
    }

    /// What the scheduler transmits on meeting this event, and `None` for an
    /// update signal, which it takes in without transmitting anything yet.
    #[verifier::when_used_as_spec(spec_classify)]
    pub fn classify(self) -> (emission: Option<Emission>)
        ensures
            emission == self.spec_classify(),
    {
        match self {
            SendEvent::AckUpdate | SendEvent::WindowUpdate => None,
            SendEvent::Send(packet) | SendEvent::Resend(packet) => Some(Emission::Packet(packet)),
            SendEvent::Close => Some(Emission::Close),
        }
    }
}

impl UdpConnectionVars {
    /// The data packet that this state gives for `payload`. A packet without
    /// payload stands at the send cursor and takes no position of its own;
    /// one with payload stands one position after it.
    pub open spec fn data_packet(self, payload: Seq<u8>) -> PacketView {
        PacketView::data(
            if payload.len() == 0 {
                self.sequence_number
            } else {
                self.sequence_number.successor()
            },
            self.ack_number,
            self.advertised_window(),
            payload,
        )
    }

    /// The open packet that this state gives: one position after the send
    /// cursor.
    pub open spec fn open_packet(self) -> PacketView {
        PacketView::open(self.sequence_number.successor(), self.ack_number, self.advertised_window())
    }

    /// The close packet that this state gives: one position after the send
    /// cursor, with a window of zero whatever the receive buffer holds.
    pub open spec fn close_packet(self) -> PacketView {
        PacketView::close(self.sequence_number.successor(), self.ack_number)
    }

    /// The packet that goes out for `emission` in this state, and the state
    /// after it.
    pub open spec fn emitted(self, emission: Emission) -> (PacketView, UdpConnectionVars) {
        match emission {
            Emission::Packet(packet) => (packet@, self),
            Emission::Close => (
                self.close_packet(),
                self.moved_to(self.sequence_number.successor()),
            ),
            Emission::Update => (self.data_packet(Seq::empty()), self),
        }
    }

    /// Builds a data packet with the current acknowledgment number and
    /// receive window, and moves the send cursor to it. Only a packet with
    /// payload moves the cursor on, by one position however long the payload
    /// is: a packet without payload must not call for an acknowledgment of
    /// its own.
    pub fn create_data_packet(&mut self, payload: &[u8]) -> (packet: UdpPacket)
        ensures
            packet@ == old(self).data_packet(payload@),
            packet@.well_formed(),
            *final(self) == old(self).moved_to(packet@.sequence_number),
            payload@.len() == 0 ==> final(self).sequence_number == old(self).sequence_number,
            payload@.len() > 0 ==> final(self).sequence_number == old(
                self,
            ).sequence_number.successor(),
    {
        let sequence_number = if payload.len() == 0 {
            self.sequence_number
        } else {
            self.sequence_number + SequenceNumber(1)
        };

        let packet = UdpPacket::data(
            sequence_number,
            self.ack_number,
            self.calculate_recv_window(),
            payload,
        );

        self.update_sequence_number(&packet);

        packet
    }

    /// Builds an open packet with the current acknowledgment number and
    /// receive window, one position after the send cursor, and moves the
    /// cursor to it.
    pub fn create_open_packet(&mut self) -> (packet: UdpPacket)
        ensures
            packet@ == old(self).open_packet(),
            packet@.well_formed(),
            final(self).sequence_number == old(self).sequence_number.successor(),
            *final(self) == old(self).moved_to(packet@.sequence_number),
    {
        let packet = UdpPacket::open(
            self.sequence_number + SequenceNumber(1),
            self.ack_number,
            self.calculate_recv_window(),
        );

        self.update_sequence_number(&packet);

        packet
    }

    /// Builds a close packet with the current acknowledgment number, one
    /// position after the send cursor, and moves the cursor to it. The
    /// window of the packet is zero whatever the receive buffer holds.
    pub fn create_close_packet(&mut self) -> (packet: UdpPacket)
        ensures
            packet@ == old(self).close_packet(),
            packet@.well_formed(),
            packet@.window == 0,
            final(self).sequence_number == old(self).sequence_number.successor(),
            *final(self) == old(self).moved_to(packet@.sequence_number),
    {
        let packet = UdpPacket::close(self.sequence_number + SequenceNumber(1), self.ack_number);

        self.update_sequence_number(&packet);

        packet
    }

    /// Moves the send cursor to the position at which `packet` ends.
    pub fn update_sequence_number(&mut self, packet: &UdpPacket)
        ensures
            *final(self) == old(self).moved_to(packet@.end_sequence_number()),
    {
        self.sequence_number = packet.end_sequence_number();
    }

    /// Produces the packet that the scheduler has settled on: a packet that
    /// an event carried goes out untouched and leaves the state as it is; a
    /// close or an update is built from the state at this moment.
    pub fn emit(&mut self, emission: Emission) -> (packet: UdpPacket)
        ensures
            (packet@, *final(self)) == old(self).emitted(emission),
            emission matches Emission::Packet(carried) ==> packet == carried,
    {
        match emission {
            Emission::Packet(carried) => carried,
            Emission::Close => self.create_close_packet(),
            Emission::Update => {
                let packet = self.create_data_packet(&[]);
                assert(packet@.payload =~= Seq::empty());
                packet
            },
        }
    }
}

/// Whatever a round settles on, it moves nothing in the state of the
/// connection but the send cursor, and the cursor only for a close packet,
/// by one position. A packet that an event carried and an update leave the
/// state as it is: update signals never use up a position.
pub proof fn lemma_only_close_moves_cursor(con: UdpConnectionVars, emission: Emission)
    ensures
        emission is Close ==> con.emitted(emission).1 == con.moved_to(
            con.sequence_number.successor(),
        ),
        !(emission is Close) ==> con.emitted(emission).1 == con,
{
}

/// The packet that goes out is well formed whenever a packet that an event
/// carried is: what the scheduler builds itself always is.
pub proof fn lemma_emitted_well_formed(con: UdpConnectionVars, emission: Emission)
    requires
        emission matches Emission::Packet(carried) ==> carried@.well_formed(),
    ensures
        con.emitted(emission).0.well_formed(),
{
}

/// An update stands at the send cursor, carries no payload, and shows the
/// acknowledgment number and the receive window of the state it is built
/// from.
pub proof fn lemma_update_shows_state(con: UdpConnectionVars)
    ensures
        con.emitted(Emission::Update).0 == PacketView::data(
            con.sequence_number,
            con.ack_number,
            con.advertised_window(),
            Seq::empty(),
        ),
{
}

/// A close packet that is built right after a data packet with payload
/// stands two positions after the cursor from which the data packet was
/// built, and acknowledges what the data packet acknowledged.
pub proof fn lemma_close_after_data(con: UdpConnectionVars, payload: Seq<u8>)
    requires
        payload.len() > 0,
    ensures
        con.moved_to(con.data_packet(payload).sequence_number).close_packet() == PacketView::close(
            con.sequence_number.advanced_by(2),
            con.ack_number,
        ),
{
    lemma_advanced_by_composes(con.sequence_number, 1, 1);
}

/// How many update signals one round of the scheduler takes in at most
/// before it settles on an update. No burst in practice is that long: the
/// limit is there so that a round ends whatever the producers do.
pub const MAX_COALESCED_SIGNALS: u64 = u64::MAX;

/// The consuming end of the queue of send events, with the scheduler that
/// works on it.
pub struct SendEventReceiver {
    /// The queue that the producers of a connection write to. Whoever drives
    /// the scheduler waits on it for the event that starts a round.
    pub receiver: UnboundedReceiver<SendEvent>,
}

impl SendEventReceiver {
    /// Takes over the consuming end of a queue of send events.
    pub fn new(receiver: UnboundedReceiver<SendEvent>) -> (events: SendEventReceiver)
        ensures
            events.receiver == receiver,
    {
        SendEventReceiver { receiver }
    }

    /// What a look at the queue settles, in a round that has met nothing but
    /// update signals so far: an event that asks for a packet settles on that
    /// packet, a queue with nothing at hand settles on an update, and one
    /// more update signal settles nothing.
    pub fn settle(polled: Result<SendEvent, TryRecvError>) -> (emission: Option<Emission>)
        ensures
            emission == match polled {
                Ok(event) => event.classify(),
                Err(_) => Some(Emission::Update),
            },
    {
        match polled {
            Ok(event) => event.classify(),
            Err(_) => Some(Emission::Update),
        }
    }

    /// Settles what to transmit in the round that `first` starts.
    ///
    /// An event that asks for a packet settles the round at once: a packet
    /// that is sent or sent again goes out as it is, and a close is built.
    /// An update signal does not: the round goes on taking events that are
    /// at hand, without waiting, until one of them asks for a packet or none
    /// is left, and in that last case settles on a single update for the
    /// whole run of signals. It does the same after
    /// `MAX_COALESCED_SIGNALS` signals in a row. What the queue holds is the
    /// producers' doing, so after an update signal each of the three
    /// outcomes is possible.
    pub fn coalesce(&mut self, first: SendEvent) -> (emission: Emission)
        ensures
            first.classify() matches Some(asked) ==> emission == asked,
    {
        match first.classify() {
            Some(asked) => {
                return asked;
            },
            None => {},
        }
        let mut budget: u64 = MAX_COALESCED_SIGNALS;
        while budget > 0
            invariant
                first.classify() is None,
            decreases budget,
        {
            budget = budget - 1;
            match SendEventReceiver::settle(self.receiver.try_recv()) {
                Some(settled) => {
                    return settled;
                },
                None => {},
            }
        }
        Emission::Update
    }

    /// One round of the scheduler: from the event that the wait on the queue
    /// has given, or `None` when the queue is closed for good with nothing
    /// left in it, to the one packet to transmit next.
    ///
    /// The round ends the stream exactly when the wait gave no event, and
    /// then leaves the connection as it is. Otherwise it gives one packet:
    /// the one that `coalesce` settles on, produced by `emit`. So the send
    /// cursor moves in no round but one that gives a close packet.
    pub fn wait_for_next_packet(
        &mut self,
        first: Option<SendEvent>,
        con: &mut UdpConnectionVars,
    ) -> (next: Option<UdpPacket>)
        ensures
            match first {
                None => next is None && *final(con) == *old(con),
                Some(event) => next matches Some(packet) && match event.classify() {
                    Some(asked) => {
                        &&& (packet@, *final(con)) == old(con).emitted(asked)
                        &&& asked matches Emission::Packet(carried) ==> packet == carried
                    },
                    None => exists|settled: Emission|
                        (packet@, *final(con)) == #[trigger] old(con).emitted(settled),
                },
            },
    {
        match first {
            None => None,
            Some(event) => {
                let emission = self.coalesce(event);
                Some(con.emit(emission))
            },
        }
    }
}

} // verus!
