//! The schemes that disguise tunnel traffic.

use crate::net::SocketAddress;
use vstd::prelude::*;

verus! {

/// The scheme that disguises tunnel traffic.
#[derive(Clone, Copy, Debug, PartialEq, Eq, Structural)]
pub enum ObfuscatorType {
    Udp2Tcp,
    Mock,
    Custom,
}

/// A scheme with what it needs to run.
#[derive(Clone, Copy, Debug, PartialEq, Eq, Structural)]
pub enum ObfuscatorConfig {
    Udp2Tcp { endpoint: SocketAddress },
    Mock,
    Custom { address: SocketAddress, remote_endpoint: SocketAddress },
}

} // verus!
