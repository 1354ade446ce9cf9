//! How the API is reached: directly, or through a proxy.

use crate::error::ErrorKind;
use crate::net::SocketAddress;
use vstd::prelude::*;

verus! {

/// The name of the file that keeps the connection mode between runs.
pub const CURRENT_CONFIG_FILENAME: &'static str = "api-endpoint.json";

/// A password-authenticated, encrypted TCP relay.
#[derive(Debug, PartialEq, Eq)]
pub struct ShadowsocksProxySettings {
    pub peer: SocketAddress,
    /// Password on the peer.
    pub password: String,
    /// The cipher's name, as the proxy protocol spells it.
    pub cipher: String,
}

impl Clone for ShadowsocksProxySettings {
    fn clone(&self) -> (copy: Self)
        ensures
            copy == *self,
    {
        ShadowsocksProxySettings {
            peer: self.peer,
            password: self.password.clone(),
            cipher: self.cipher.clone(),
        }
    }
}

/// The settings of a proxy, by scheme.
#[derive(Debug, PartialEq, Eq)]
pub enum ProxyConfigSettings {
    Shadowsocks(ShadowsocksProxySettings),
}

impl Clone for ProxyConfigSettings {
    fn clone(&self) -> (copy: Self)
        ensures
            copy == *self,
    {
        match self {
            ProxyConfigSettings::Shadowsocks(ss) => ProxyConfigSettings::Shadowsocks(ss.clone()),
        }
    }
}

impl ProxyConfigSettings {
    /// The address of the proxy.
    pub open spec fn peer(&self) -> SocketAddress {
        match self {
            ProxyConfigSettings::Shadowsocks(ss) => ss.peer,
        }
    }
}

/// The connection mode.
#[derive(Debug, PartialEq, Eq)]
pub enum ProxyConfig {
    /// Connect directly to the target.
    Direct,
    /// Connect to the destination via a proxy.
    Proxied(ProxyConfigSettings),
}

impl Clone for ProxyConfig {
    fn clone(&self) -> (copy: Self)
        ensures
            copy == *self,
    {
        match self {
            ProxyConfig::Direct => ProxyConfig::Direct,
            ProxyConfig::Proxied(settings) => ProxyConfig::Proxied(settings.clone()),
        }
    }
}

/// What reading the stored connection mode from disk came to.
#[derive(Debug, PartialEq, Eq)]
pub enum CacheRead {
    /// There is no such file.
    NotFound,
    /// The file is there and could not be read.
    Unreadable,
    /// The file was read, and its text does not describe a connection mode.
    Malformed,
    /// The file was read and describes this connection mode.
    Parsed(ProxyConfig),
}

/// Why the stored connection mode could not be had.
#[derive(Clone, Copy, Debug, PartialEq, Eq, Structural)]
pub enum CacheError {
    /// The file could not be read.
    Io,
    /// The text of the file could not be understood.
    Deserialization,
}

impl CacheError {
    /// The kind of this failure: a file that cannot be read is a failure to
    /// read, and a text that cannot be understood is a configuration that
    /// does not parse.
    pub fn kind(&self) -> (kind: ErrorKind)
        ensures
            kind == match *self {
                CacheError::Io => ErrorKind::Io,
                CacheError::Deserialization => ErrorKind::ConfigParse,
            },
    {
        match self {
            CacheError::Io => ErrorKind::Io,
            CacheError::Deserialization => ErrorKind::ConfigParse,
        }
    }
}

impl ProxyConfig {
    /// The mode that a read of the stored file stands for. A missing file
    /// stands for a direct connection.
    pub open spec fn spec_from_cache(read: CacheRead) -> Result<ProxyConfig, CacheError> {
        match read {
            CacheRead::NotFound => Ok(ProxyConfig::Direct),
            CacheRead::Unreadable => Err(CacheError::Io),
            CacheRead::Malformed => Err(CacheError::Deserialization),
            CacheRead::Parsed(config) => Ok(config),
        }
    }

    /// The connection mode to start with, given what the read of the stored
    /// file came to. Whatever went wrong, the answer is a direct connection.
    pub fn try_from_cache(read: CacheRead) -> (config: ProxyConfig)
        ensures
            config == match Self::spec_from_cache(read) {
                Ok(stored) => stored,
                Err(_) => ProxyConfig::Direct,
            },
    {
        match Self::from_cache(read) {
            Ok(stored) => stored,
            Err(_) => ProxyConfig::Direct,
        }
    }

    /// The stored connection mode, given what the read of the file came to.
    pub fn from_cache(read: CacheRead) -> (loaded: Result<ProxyConfig, CacheError>)
        ensures
            loaded == Self::spec_from_cache(read),
    {
        match read {
            CacheRead::NotFound => Ok(ProxyConfig::Direct),
            CacheRead::Unreadable => Err(CacheError::Io),
            CacheRead::Malformed => Err(CacheError::Deserialization),
            CacheRead::Parsed(config) => Ok(config),
        }
    }

    /// Returns the remote address, or `None` for a direct connection.
    pub fn get_endpoint(&self) -> (endpoint: Option<SocketAddress>)
        ensures
            endpoint == match *self {
                ProxyConfig::Proxied(settings) => Some(settings.peer()),
                ProxyConfig::Direct => None,
            },
    {
        match self {
            ProxyConfig::Proxied(ProxyConfigSettings::Shadowsocks(ss)) => Some(ss.peer),
            ProxyConfig::Direct => None,
        }
    }

    /// Whether the API is reached through a proxy.
    pub fn is_proxy(&self) -> (proxied: bool)
        ensures
            proxied == (*self != ProxyConfig::Direct),
    {
        match self {
            ProxyConfig::Direct => false,
            ProxyConfig::Proxied(_) => true,
        }
    }
}

/// A file that describes a connection mode loads as that mode, whatever
/// its settings are, and never as a failure or as another mode.
pub proof fn lemma_described_mode_is_loaded(config: ProxyConfig)
    ensures
        ProxyConfig::spec_from_cache(CacheRead::Parsed(config)) == Ok::<ProxyConfig, CacheError>(
            config,
        ),
{
}

} // verus!
