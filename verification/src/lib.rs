//! The send path of a reliable, ordered, connection-oriented transport that
//! runs over an unreliable datagram channel: packets, the send-side state of
//! a connection with its packet builders, and the scheduler that picks the
//! one packet to transmit next from a backlog of send events.

pub mod config;
pub mod connection;
pub mod packet;
pub mod sender;
pub mod sequence;

pub use config::{UdpConnectionConfig, DEFAULT_RECV_WINDOW};
pub use connection::UdpConnectionVars;
pub use packet::{PacketView, UdpPacket, UdpPacketType};
pub use sender::{Emission, SendEvent, SendEventReceiver, MAX_COALESCED_SIGNALS};
pub use sequence::SequenceNumber;
