//! The parts of a request target that the connector reads.

use crate::error::ErrorKind;
use vstd::prelude::*;

verus! {

/// The parts of a URI that decide where a connection goes.
#[derive(Debug, PartialEq, Eq)]
pub struct TargetUri {
    pub scheme: Option<String>,
    pub host: Option<String>,
    pub port: Option<u16>,
}

/// The parts of a URI, as text.
pub struct UriParts {
    pub scheme: Option<Seq<char>>,
    pub host: Option<Seq<char>>,
    pub port: Option<u16>,
}

impl UriParts {
    /// Whether the scheme is the secure one.
    pub open spec fn is_https(self) -> bool {
        self.scheme == Some("https"@)
    }
}

impl View for TargetUri {
    type V = UriParts;

    open spec fn view(&self) -> UriParts {
        UriParts {
            scheme: match self.scheme {
                Some(s) => Some(s@),
                None => None,
            },
            host: match self.host {
                Some(h) => Some(h@),
                None => None,
            },
            port: self.port,
        }
    }
}

/// The text is no URI.
#[derive(Clone, Copy, Debug, PartialEq, Eq, Structural)]
pub struct MalformedUri;

impl MalformedUri {
    /// A malformed URI is invalid input.
    pub fn kind(&self) -> (kind: ErrorKind)
        ensures
            kind == ErrorKind::InvalidInput,
    {
        ErrorKind::InvalidInput
    }
}

/// The parts of the URI that `text` spells, or `None` where it spells none.
pub uninterp spec fn uri_components(text: Seq<char>) -> Option<UriParts>;

/// Reads `text` as a URI and hands out its scheme, host and port.
///
/// Parses with `http::Uri` (`from_str`) and reads the result with
/// `scheme_str`, `host` and `port_u16`. What comes back depends on the text
/// alone; the contract gives it a name and claims nothing else about it.
#[verifier::external_body]
fn parse_uri(text: &str) -> (parsed: Option<TargetUri>)
    ensures
        match parsed {
            Some(uri) => uri_components(text@) == Some(uri@),
            None => uri_components(text@) is None,
        },
{
    match text.parse::<http::Uri>() {
        Ok(uri) => Some(
            TargetUri {
                scheme: uri.scheme_str().map(String::from),
                host: uri.host().map(String::from),
                port: uri.port_u16(),
            },
        ),
        Err(_) => None,
    }
}

impl TargetUri {
    /// Whether the scheme is the secure one.
    pub fn is_https(&self) -> (secure: bool)
        ensures
            secure == self@.is_https(),
    {
        match &self.scheme {
            Some(scheme) => {
                let https = String::from_str("https");
                *scheme == https
            },
            None => false,
        }
    }

    /// The target that `text` spells.
    pub fn parse(text: &str) -> (parsed: Result<TargetUri, MalformedUri>)
        ensures
            match parsed {
                Ok(uri) => uri_components(text@) == Some(uri@),
                Err(_) => uri_components(text@) is None,
            },
    {
        match parse_uri(text) {
            Some(uri) => Ok(uri),
            None => Err(MalformedUri),
        }
    }
}

} // verus!
