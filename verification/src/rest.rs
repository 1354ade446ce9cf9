//! The requests that the API understands, and what it answers.

use crate::device::Device;
use crate::error::ErrorKind;
use crate::wireguard::{AssociatedAddresses, Ipv4Network, Ipv6Network, PublicKey};
use vstd::prelude::*;

verus! {

/// Error code returned by the API if the voucher has already been used.
pub const VOUCHER_USED: &'static str = "VOUCHER_USED";

/// Error code returned by the API if the voucher code is invalid.
pub const INVALID_VOUCHER: &'static str = "INVALID_VOUCHER";

/// Error code returned by the API if the account token is invalid.
pub const INVALID_ACCOUNT: &'static str = "INVALID_ACCOUNT";

/// Error code returned by the API if the access token is invalid.
pub const INVALID_ACCESS_TOKEN: &'static str = "INVALID_ACCESS_TOKEN";

/// Error code returned by the API if the account has as many devices as
/// it may have.
pub const MAX_DEVICES_REACHED: &'static str = "MAX_DEVICES_REACHED";

/// Error code returned by the API if the public key belongs to a device.
pub const PUBKEY_IN_USE: &'static str = "PUBKEY_IN_USE";

/// The status of a request that succeeded.
pub const OK: u16 = 200;

/// The status of a request that created something.
pub const CREATED: u16 = 201;

/// The status of a request that succeeded and has nothing to say.
pub const NO_CONTENT: u16 = 204;

/// The status of a request that the API could not make sense of.
pub const BAD_REQUEST: u16 = 400;

/// Why a request failed.
#[derive(Debug, PartialEq, Eq)]
pub enum Error {
    /// The API answered with an unexpected status and an error code.
    ApiError(u16, String),
    /// The request did not get through, or its answer could not be read.
    Transport,
}

impl Error {
    /// Whether the API turned the account down as invalid.
    pub open spec fn spec_is_invalid_account(self) -> bool {
        self matches Error::ApiError(status, _) && status == BAD_REQUEST
    }

    /// Whether the API turned the access token down as invalid.
    pub open spec fn spec_is_invalid_access_token(self) -> bool {
        self matches Error::ApiError(_, code) && code@ == INVALID_ACCESS_TOKEN@
    }

    /// Whether the API turned the account down as invalid.
    pub fn is_invalid_account(&self) -> (invalid: bool)
        ensures
            invalid == self.spec_is_invalid_account(),
    {
        match self {
            Error::ApiError(status, _) => *status == BAD_REQUEST,
            Error::Transport => false,
        }
    }

    /// Whether the API turned the access token down as invalid.
    pub fn is_invalid_access_token(&self) -> (invalid: bool)
        ensures
            invalid == self.spec_is_invalid_access_token(),
    {
        match self {
            Error::ApiError(_, code) => {
                let invalid = String::from_str(INVALID_ACCESS_TOKEN);
                *code == invalid
            },
            Error::Transport => false,
        }
    }

    /// The kind of this failure where the request was one for an access
    /// token.
    pub fn kind(&self) -> (kind: ErrorKind)
        ensures
            kind == ErrorKind::AuthFetch,
    {
        ErrorKind::AuthFetch
    }
}

/// The method of a request.
#[derive(Clone, Copy, Debug, PartialEq, Eq, Structural)]
pub enum Method {
    Get,
    Post,
    Put,
    Delete,
}

/// A request to the API, as far as the library decides it.
#[derive(Debug, PartialEq, Eq)]
pub struct RestRequest {
    /// The path below the API's root.
    pub path: String,
    pub method: Method,
    /// Whether the request carries the access token of an account.
    pub authenticated: bool,
    /// The status that says that the request succeeded.
    pub expected_status: u16,
}

/// What makes requests to the API.
#[derive(Debug, PartialEq, Eq)]
pub struct MullvadRestHandle {
    /// The host name of the API.
    pub hostname: String,
}

impl Clone for MullvadRestHandle {
    fn clone(&self) -> (copy: Self)
        ensures
            copy == *self,
    {
        MullvadRestHandle { hostname: self.hostname.clone() }
    }
}

/// The path `prefix` followed by `id`.
fn path_with(prefix: &str, id: &String) -> (path: String)
    ensures
        path@ == prefix@ + id@,
{
    String::from_str(prefix).concat(id.as_str())
}

/// The requests about accounts.
#[derive(Debug, PartialEq, Eq)]
pub struct AccountsProxy {
    pub handle: MullvadRestHandle,
}

impl AccountsProxy {
    pub fn new(handle: MullvadRestHandle) -> (proxy: Self)
        ensures
            proxy.handle == handle,
    {
        Self { handle }
    }

    /// The request for the time until which an account is paid for.
    pub fn get_expiry(&self) -> (request: RestRequest)
        ensures
            request.path@ == "accounts/v1-alpha/accounts/me"@,
            request.method == Method::Get,
            request.authenticated,
            request.expected_status == OK,
    {
        RestRequest {
            path: String::from_str("accounts/v1-alpha/accounts/me"),
            method: Method::Get,
            authenticated: true,
            expected_status: OK,
        }
    }

    /// The request that creates an account.
    pub fn create_account(&self) -> (request: RestRequest)
        ensures
            request.path@ == "accounts/v1-alpha/accounts"@,
            request.method == Method::Post,
            !request.authenticated,
            request.expected_status == CREATED,
    {
        RestRequest {
            path: String::from_str("accounts/v1-alpha/accounts"),
            method: Method::Post,
            authenticated: false,
            expected_status: CREATED,
        }
    }

    /// The request that redeems a voucher.
    pub fn submit_voucher(&self) -> (request: RestRequest)
        ensures
            request.path@ == "app/v1/submit-voucher"@,
            request.method == Method::Post,
            request.authenticated,
            request.expected_status == OK,
    {
        RestRequest {
            path: String::from_str("app/v1/submit-voucher"),
            method: Method::Post,
            authenticated: true,
            expected_status: OK,
        }
    }

    /// The request for a token that logs in to the web site.
    pub fn get_www_auth_token(&self) -> (request: RestRequest)
        ensures
            request.path@ == "app/v1/www-auth-token"@,
            request.method == Method::Post,
            request.authenticated,
            request.expected_status == OK,
    {
        RestRequest {
            path: String::from_str("app/v1/www-auth-token"),
            method: Method::Post,
            authenticated: true,
            expected_status: OK,
        }
    }
}

/// What the API answers about a device.
#[derive(Debug, PartialEq, Eq)]
pub struct DeviceResponse {
    pub id: String,
    pub name: String,
    pub pubkey: PublicKey,
    pub ipv4_address: Ipv4Network,
    pub ipv6_address: Ipv6Network,
}

impl DeviceResponse {
    /// The device that the answer describes.
    pub open spec fn device(self) -> Device {
        Device { id: self.id, name: self.name, pubkey: self.pubkey }
    }

    /// The addresses that the answer assigns.
    pub open spec fn addresses(self) -> AssociatedAddresses {
        AssociatedAddresses { ipv4_address: self.ipv4_address, ipv6_address: self.ipv6_address }
    }
}

/// The requests about the devices of an account.
#[derive(Debug, PartialEq, Eq)]
pub struct DevicesProxy {
    pub handle: MullvadRestHandle,
}

impl DevicesProxy {
    pub fn new(handle: MullvadRestHandle) -> (proxy: Self)
        ensures
            proxy.handle == handle,
    {
        Self { handle }
    }

    /// The request that adds a device to an account.
    pub fn create(&self) -> (request: RestRequest)
        ensures
            request.path@ == "accounts/v1-alpha/devices"@,
            request.method == Method::Post,
            request.authenticated,
            request.expected_status == CREATED,
    {
        RestRequest {
            path: String::from_str("accounts/v1-alpha/devices"),
            method: Method::Post,
            authenticated: true,
            expected_status: CREATED,
        }
    }

    /// The device that was created and its addresses, from the answer.
    pub fn created(response: DeviceResponse) -> (made: (Device, AssociatedAddresses))
        ensures
            made == (response.device(), response.addresses()),
    {
        let DeviceResponse { id, name, pubkey, ipv4_address, ipv6_address } = response;
        (Device { id, name, pubkey }, AssociatedAddresses { ipv4_address, ipv6_address })
    }

    /// The request for one device.
    pub fn get(&self, id: &String) -> (request: RestRequest)
        ensures
            request.path@ == "accounts/v1-alpha/devices/"@ + id@,
            request.method == Method::Get,
            request.authenticated,
            request.expected_status == OK,
    {
        RestRequest {
            path: path_with("accounts/v1-alpha/devices/", id),
            method: Method::Get,
            authenticated: true,
            expected_status: OK,
        }
    }

    /// The request for all devices of an account.
    pub fn list(&self) -> (request: RestRequest)
        ensures
            request.path@ == "accounts/v1-alpha/devices"@,
            request.method == Method::Get,
            request.authenticated,
            request.expected_status == OK,
    {
        RestRequest {
            path: String::from_str("accounts/v1-alpha/devices"),
            method: Method::Get,
            authenticated: true,
            expected_status: OK,
        }
    }

    /// The request that removes a device.
    pub fn remove(&self, id: &String) -> (request: RestRequest)
        ensures
            request.path@ == "accounts/v1-alpha/devices/"@ + id@,
            request.method == Method::Delete,
            request.authenticated,
            request.expected_status == NO_CONTENT,
    {
        RestRequest {
            path: path_with("accounts/v1-alpha/devices/", id),
            method: Method::Delete,
            authenticated: true,
            expected_status: NO_CONTENT,
        }
    }

    /// The request that gives a device another key.
    pub fn replace_wg_key(&self, id: &String) -> (request: RestRequest)
        ensures
            request.path@ == "accounts/v1-alpha/devices/"@ + id@ + "/pubkey"@,
            request.method == Method::Put,
            request.authenticated,
            request.expected_status == OK,
    {
        RestRequest {
            path: path_with("accounts/v1-alpha/devices/", id).concat("/pubkey"),
            method: Method::Put,
            authenticated: true,
            expected_status: OK,
        }
    }

    /// The addresses of the device whose key was replaced, from the answer.
    pub fn replaced(response: DeviceResponse) -> (addresses: AssociatedAddresses)
        ensures
            addresses == response.addresses(),
    {
        AssociatedAddresses {
            ipv4_address: response.ipv4_address,
            ipv6_address: response.ipv6_address,
        }
    }
}

/// The request that sends a problem report.
#[derive(Debug, PartialEq, Eq)]
pub struct ProblemReportProxy {
    pub handle: MullvadRestHandle,
}

impl ProblemReportProxy {
    pub fn new(handle: MullvadRestHandle) -> (proxy: Self)
        ensures
            proxy.handle == handle,
    {
        Self { handle }
    }

    /// The request that sends a problem report.
    pub fn problem_report(&self) -> (request: RestRequest)
        ensures
            request.path@ == "app/v1/problem-report"@,
            request.method == Method::Post,
            !request.authenticated,
            request.expected_status == NO_CONTENT,
    {
        RestRequest {
            path: String::from_str("app/v1/problem-report"),
            method: Method::Post,
            authenticated: false,
            expected_status: NO_CONTENT,
        }
    }
}

/// The request about the versions of the program.
#[derive(Debug, PartialEq, Eq)]
pub struct AppVersionProxy {
    pub handle: MullvadRestHandle,
}

/// What the API says about the versions of the program.
#[derive(Debug, PartialEq, Eq)]
pub struct AppVersionResponse {
    pub supported: bool,
    pub latest: String,
    pub latest_stable: Option<String>,
    pub latest_beta: String,
}

/// The header that carries the version of the platform.
pub const PLATFORM_VERSION_HEADER: &'static str = "M-Platform-Version";

impl AppVersionProxy {
    pub fn new(handle: MullvadRestHandle) -> (proxy: Self)
        ensures
            proxy.handle == handle,
    {
        Self { handle }
    }

    /// The request that asks what the API knows of `app_version` on
    /// `platform`.
    pub fn version_check(&self, app_version: &String, platform: &str) -> (request: RestRequest)
        ensures
            request.path@ == "app/v1/releases/"@ + platform@ + "/"@ + app_version@,
            request.method == Method::Get,
            !request.authenticated,
            request.expected_status == OK,
    {
        RestRequest {
            path: String::from_str("app/v1/releases/").concat(platform).concat("/").concat(
                app_version.as_str(),
            ),
            method: Method::Get,
            authenticated: false,
            expected_status: OK,
        }
    }
}

/// The request for the addresses of the API.
#[derive(Debug, PartialEq, Eq)]
pub struct ApiProxy {
    pub handle: MullvadRestHandle,
}

impl ApiProxy {
    pub fn new(handle: MullvadRestHandle) -> (proxy: Self)
        ensures
            proxy.handle == handle,
    {
        Self { handle }
    }

    /// The request for the addresses of the API.
    pub fn get_api_addrs(&self) -> (request: RestRequest)
        ensures
            request.path@ == "app/v1/api-addrs"@,
            request.method == Method::Get,
            !request.authenticated,
            request.expected_status == OK,
    {
        RestRequest {
            path: String::from_str("app/v1/api-addrs"),
            method: Method::Get,
            authenticated: false,
            expected_status: OK,
        }
    }
}

} // verus!
