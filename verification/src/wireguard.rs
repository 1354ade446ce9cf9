//! Keys and addresses of a tunnel device.

use crate::time::Timestamp;
use vstd::prelude::*;

verus! {

/// The length of a key, in bytes.
pub const KEY_LEN: usize = 32;

/// The public key of a device.
#[derive(Clone, Copy, Debug, PartialEq, Eq, Hash)]
pub struct PublicKey {
    pub bytes: [u8; 32],
}

impl PublicKey {
    /// Whether the two keys hold the same bytes.
    pub fn same_as(&self, other: &PublicKey) -> (same: bool)
        ensures
            same == (self.bytes@ == other.bytes@),
    {
        let mut i: usize = 0;
        while i < KEY_LEN
            invariant
                i <= KEY_LEN,
                forall|k: int| 0 <= k < i ==> self.bytes@[k] == other.bytes@[k],
            decreases KEY_LEN - i,
        {
            if self.bytes[i] != other.bytes[i] {
                return false;
            }
            i = i + 1;
        }
        assert(self.bytes@ =~= other.bytes@);
        true
    }
}

/// The private key of a device.
#[derive(Clone, Copy, Debug, PartialEq, Eq)]
pub struct PrivateKey {
    pub bytes: [u8; 32],
}

/// An IPv4 address, as the number that its four octets spell, and the
/// length of its network prefix.
#[derive(Clone, Copy, Debug, PartialEq, Eq, Hash, Structural)]
pub struct Ipv4Network {
    pub addr: u32,
    pub prefix: u8,
}

/// An IPv6 address, as the number that its sixteen octets spell, and the
/// length of its network prefix.
#[derive(Clone, Copy, Debug, PartialEq, Eq, Hash, Structural)]
pub struct Ipv6Network {
    pub addr: u128,
    pub prefix: u8,
}

/// The addresses that the API has assigned to a device.
#[derive(Clone, Copy, Debug, PartialEq, Eq, Hash, Structural)]
pub struct AssociatedAddresses {
    pub ipv4_address: Ipv4Network,
    pub ipv6_address: Ipv6Network,
}

/// The key of a device with what the API has associated with it.
#[derive(Clone, Copy, Debug, PartialEq, Eq)]
pub struct WireguardData {
    pub private_key: PrivateKey,
    pub addresses: AssociatedAddresses,
    pub created: Timestamp,
}

} // verus!
