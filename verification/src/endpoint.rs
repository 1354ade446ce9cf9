//! Where the API is found: the built-in endpoint, or the one that the
//! environment names in builds that allow an override.

use crate::net::{IpAddress, SocketAddress};
use vstd::prelude::*;

verus! {

/// The host name of the API.
pub const API_HOST_DEFAULT: &'static str = "api.mullvad.net";

/// The port of the API.
pub const API_PORT_DEFAULT: u16 = 443;

/// The address of the API.
pub open spec fn api_addr_default() -> SocketAddress {
    SocketAddress { ip: IpAddress::V4(193, 138, 218, 78), port: API_PORT_DEFAULT }
}

/// A host name and socket address to reach the API over.
#[derive(Debug, PartialEq, Eq)]
pub struct ApiEndpoint {
    pub host: String,
    pub addr: SocketAddress,
    /// Whether the address is fixed, so that no cache of addresses is kept.
    pub disable_address_cache: bool,
}

/// What is wrong with the override that the environment asks for.
#[derive(Clone, Copy, Debug, PartialEq, Eq, Structural)]
pub enum OverrideFault {
    /// The host is set, the address is not.
    HostWithoutAddr,
    /// The address is set, the host is not.
    AddrWithoutHost,
}

impl ApiEndpoint {
    /// What is wrong with the override, if anything: in a build that allows
    /// one, host and address are set together or not at all.
    pub open spec fn spec_override_fault(
        api_override: bool,
        host_set: bool,
        addr_set: bool,
    ) -> Option<OverrideFault> {
        if api_override && host_set && !addr_set {
            Some(OverrideFault::HostWithoutAddr)
        } else if api_override && addr_set && !host_set {
            Some(OverrideFault::AddrWithoutHost)
        } else {
            None
        }
    }

    /// What is wrong with the override, if anything.
    pub fn override_fault(api_override: bool, host_set: bool, addr_set: bool) -> (fault: Option<
        OverrideFault,
    >)
        ensures
            fault == Self::spec_override_fault(api_override, host_set, addr_set),
    {
        if api_override && host_set && !addr_set {
            Some(OverrideFault::HostWithoutAddr)
        } else if api_override && addr_set && !host_set {
            Some(OverrideFault::AddrWithoutHost)
        } else {
            None
        }
    }

    /// Whether the environment asks for an override that this build does
    /// not allow, and that is therefore left aside.
    pub fn override_ignored(api_override: bool, host_set: bool, addr_set: bool) -> (ignored: bool)
        ensures
            ignored == (!api_override && (host_set || addr_set)),
    {
        !api_override && (host_set || addr_set)
    }

    /// Whether the endpoint is the one that the environment names.
    pub open spec fn overridden(
        api_override: bool,
        host_var: Option<String>,
        address_var: Option<SocketAddress>,
    ) -> bool {
        api_override && host_var is Some && address_var is Some
    }

    /// The endpoint to connect to the API over.
    ///
    /// In a build that allows an override, a host and an address that are
    /// both set are used as they are, and no cache of addresses is kept.
    /// In every other case the endpoint is the built-in one.
    pub fn get(
        api_override: bool,
        host_var: Option<String>,
        address_var: Option<SocketAddress>,
    ) -> (api: ApiEndpoint)
        requires
            Self::spec_override_fault(api_override, host_var is Some, address_var is Some) is None,
        ensures
            Self::overridden(api_override, host_var, address_var) ==> api == (ApiEndpoint {
                host: host_var->0,
                addr: address_var->0,
                disable_address_cache: true,
            }),
            !Self::overridden(api_override, host_var, address_var) ==> {
                &&& api.host@ == API_HOST_DEFAULT@
                &&& api.addr == api_addr_default()
                &&& !api.disable_address_cache
            },
    {
        if api_override {
            match (host_var, address_var) {
                (Some(host), Some(addr)) => {
                    return ApiEndpoint { host, addr, disable_address_cache: true };
                },
                _ => {},
            }
        }
        ApiEndpoint {
            host: String::from_str(API_HOST_DEFAULT),
            addr: SocketAddress { ip: IpAddress::V4(193, 138, 218, 78), port: API_PORT_DEFAULT },
            disable_address_cache: false,
        }
    }
}

} // verus!
