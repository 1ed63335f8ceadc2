//! What a connection is set up with.

use vstd::prelude::*;

verus! {

/// The receive capacity, in bytes, of a connection that is set up without
/// naming one.
pub const DEFAULT_RECV_WINDOW: u32 = 102400;

/// The settings of a connection that the send path reads.
#[derive(Debug, Clone, Copy)]
pub struct UdpConnectionConfig {
    recv_window: u32,
}

impl UdpConnectionConfig {
    /// How many bytes the receiving side can hold before the application
    /// takes them.
    pub closed spec fn spec_recv_window(&self) -> u32 {
        self.recv_window
    }

    /// How many bytes the receiving side can hold before the application
    /// takes them.
    #[verifier::when_used_as_spec(spec_recv_window)]
    pub fn recv_window(&self) -> (capacity: u32)
        ensures
            capacity == self.spec_recv_window(),
    {
        self.recv_window
    }

    /// The same settings with a receive capacity of `recv_window` bytes.
    pub fn with_recv_window(self, recv_window: u32) -> (config: UdpConnectionConfig)
        ensures
            config.recv_window() == recv_window,
    {
        UdpConnectionConfig { recv_window }
    }
}

impl Default for UdpConnectionConfig {
    /// The settings with the default receive capacity.
    fn default() -> (config: UdpConnectionConfig)
        ensures
            config.recv_window() == DEFAULT_RECV_WINDOW,
    {
        UdpConnectionConfig { recv_window: DEFAULT_RECV_WINDOW }
    }
}

} // verus!
