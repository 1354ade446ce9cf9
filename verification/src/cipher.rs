//! Which cipher names the proxy runtime knows.

use vstd::prelude::*;

verus! {

/// Whether the proxy runtime knows a cipher of this name.
pub uninterp spec fn cipher_recognized(name: Seq<char>) -> bool;

/// Asks the proxy runtime whether it knows the cipher `name`.
///
/// Calls `CipherKind::from_str` of the `shadowsocks` crate, which matches the
/// lower-cased name against the ciphers built in, and reports whether it
/// returned a cipher. The answer depends on the name alone.
#[verifier::external_body]
pub(crate) fn cipher_is_recognized(name: &str) -> (known: bool)
    ensures
        known == cipher_recognized(name@),
{
    name.parse::<shadowsocks::crypto::CipherKind>().is_ok()
}

} // verus!
