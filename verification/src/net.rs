//! Plain models of network addresses.

use vstd::prelude::*;

verus! {

/// An IP address held as its octets (IPv4) or its eight groups (IPv6).
#[derive(Clone, Copy, Debug, PartialEq, Eq, Hash, Structural)]
pub enum IpAddress {
    V4(u8, u8, u8, u8),
    V6(u16, u16, u16, u16, u16, u16, u16, u16),
}

/// An IP address together with a port.
#[derive(Clone, Copy, Debug, PartialEq, Eq, Hash, Structural)]
pub struct SocketAddress {
    pub ip: IpAddress,
    pub port: u16,
}

impl SocketAddress {
    /// Combines an address and a port.
    pub fn new(ip: IpAddress, port: u16) -> (addr: SocketAddress)
        ensures
            addr == (SocketAddress { ip, port }),
    {
        SocketAddress { ip, port }
    }

    /// The address part.
    pub fn ip(&self) -> (ip: IpAddress)
        ensures
            ip == self.ip,
    {
        self.ip
    }

    /// The port part.
    pub fn port(&self) -> (port: u16)
        ensures
            port == self.port,
    {
        self.port
    }

    /// The same address with another port.
    pub fn with_port(&self, port: u16) -> (addr: SocketAddress)
        ensures
            addr == (SocketAddress { ip: self.ip, port }),
    {
        SocketAddress { ip: self.ip, port }
    }
}

} // verus!
