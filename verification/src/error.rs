//! The kinds of failure that the library reports.

use vstd::prelude::*;

verus! {

/// The kind of a failure, whichever part of the library reports it.
#[derive(Clone, Copy, Debug, PartialEq, Eq, Hash, Structural)]
pub enum ErrorKind {
    /// A malformed URI, a scheme other than the secure one, or no host.
    InvalidInput,
    /// Name resolution failed or gave no address.
    Dns,
    /// Opening the socket took longer than allowed.
    Timeout,
    /// The security handshake failed.
    Tls,
    /// The tunnel through the proxy could not be set up.
    ProxyHandshake,
    /// Stored or requested proxy settings are invalid.
    ConfigParse,
    /// An access token could not be fetched.
    AuthFetch,
    /// Reading or writing failed.
    Io,
}

} // verus!
