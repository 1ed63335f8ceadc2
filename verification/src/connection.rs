//! The state of one connection, as far as the send path reads and moves it.

use crate::config::UdpConnectionConfig;
use crate::sequence::SequenceNumber;
use vstd::prelude::*;

verus! {

/// The send-side record of one connection.
///
/// `sequence_number` is the position of the last packet that took one, so
/// the next packet that takes a position stands one after it.
/// `ack_number` is the highest position received from the peer without a
/// gap; the receive path keeps it, the send path only reads it. The receive
/// path also keeps `recv_buffered`, the number of bytes that have arrived and
/// that the application has not taken yet.
#[derive(Debug)]
pub struct UdpConnectionVars {
    pub config: UdpConnectionConfig,
    pub sequence_number: SequenceNumber,
    pub ack_number: SequenceNumber,
    pub recv_buffered: u32,
}

impl UdpConnectionVars {
    /// The receive window to advertise: the part of the receive capacity
    /// that buffered bytes do not take up, and zero when they take up all of
    /// it or more.
    pub open spec fn advertised_window(self) -> u32 {
        if self.recv_buffered >= self.config.recv_window() {
            0
        } else {
            (self.config.recv_window() - self.recv_buffered) as u32
        }
    }

    /// This state with its send cursor moved to `sequence_number`, and
    /// nothing else changed.
    pub open spec fn moved_to(self, sequence_number: SequenceNumber) -> UdpConnectionVars {
        UdpConnectionVars { sequence_number, ..self }
    }

    /// The state of a connection that has sent and received nothing yet.
    pub fn new(config: UdpConnectionConfig) -> (con: UdpConnectionVars)
        ensures
            con == (UdpConnectionVars {
                config,
                sequence_number: SequenceNumber(0),
                ack_number: SequenceNumber(0),
                recv_buffered: 0,
            }),
    {
        UdpConnectionVars {
            config,
            sequence_number: SequenceNumber(0),
            ack_number: SequenceNumber(0),
            recv_buffered: 0,
        }
    }

    /// Computes the receive window to advertise from the capacity and the
    /// bytes buffered at this moment.
    pub fn calculate_recv_window(&self) -> (window: u32)
        ensures
            window == self.advertised_window(),
    {
        let capacity: u32 = self.config.recv_window();
        if self.recv_buffered >= capacity {
            0
        } else {
            capacity - self.recv_buffered
        }
    }
}

} // verus!
