//! Devices of an account, and the events that tell of their changes.

use crate::text::{capitalize_words, capitalized_words};
use crate::wireguard::{PublicKey, WireguardData};
use vstd::prelude::*;

verus! {

/// UUID for a device.
pub type DeviceId = String;

/// Human-readable device identifier.
pub type DeviceName = String;

/// The number of an account.
pub type AccountToken = String;

/// Contains data for a device returned by the API.
#[derive(Debug, PartialEq, Eq)]
pub struct Device {
    pub id: DeviceId,
    pub name: DeviceName,
    pub pubkey: PublicKey,
}

impl Clone for Device {
    fn clone(&self) -> (copy: Self)
        ensures
            copy == *self,
    {
        Device { id: self.id.clone(), name: self.name.clone(), pubkey: self.pubkey }
    }
}

impl Device {
    /// Return name with each word capitalized: "Happy Seagull" instead of "happy seagull"
    pub fn pretty_name(&self) -> (pretty: String)
        ensures
            pretty@ == capitalized_words(self.name@),
    {
        capitalize_words(self.name.as_str())
    }

    /// The device of a complete configuration.
    pub fn from(data: DeviceData) -> (device: Device)
        ensures
            device == data.device,
    {
        data.device
    }
}

/// A complete device configuration.
#[derive(Debug, PartialEq, Eq)]
pub struct DeviceData {
    pub token: AccountToken,
    pub device: Device,
    pub wg_data: WireguardData,
}

/// [`DeviceData`] excluding the private key.
#[derive(Debug, PartialEq, Eq)]
pub struct DeviceConfig {
    pub token: AccountToken,
    pub device: Device,
}

impl DeviceConfig {
    /// The configuration without its private key.
    pub open spec fn spec_from(data: DeviceData) -> DeviceConfig {
        DeviceConfig { token: data.token, device: data.device }
    }

    /// The configuration without its private key.
    pub fn from(data: DeviceData) -> (config: DeviceConfig)
        ensures
            config == Self::spec_from(data),
    {
        DeviceConfig { token: data.token, device: data.device }
    }
}

/// Emitted when logging in or out of an account, or when the device changes.
#[derive(Debug, PartialEq, Eq)]
pub struct DeviceEvent {
    /// Device that was affected.
    pub device: Option<DeviceConfig>,
    /// Indicates whether the change was initiated remotely or by the daemon.
    pub remote: bool,
}

impl DeviceEvent {
    /// The event for a device that is now the one in use, or for none.
    pub fn new(data: Option<DeviceData>, remote: bool) -> (event: DeviceEvent)
        ensures
            event == (DeviceEvent {
                device: match data {
                    Some(data) => Some(DeviceConfig::spec_from(data)),
                    None => None,
                },
                remote,
            }),
    {
        DeviceEvent {
            device: match data {
                Some(data) => Some(DeviceConfig::from(data)),
                None => None,
            },
            remote,
        }
    }

    /// The event for a device that is now the one in use.
    pub fn from_device(data: DeviceData, remote: bool) -> (event: DeviceEvent)
        ensures
            event == (DeviceEvent { device: Some(DeviceConfig::spec_from(data)), remote }),
    {
        DeviceEvent {
            device: Some(DeviceConfig { token: data.token, device: data.device }),
            remote,
        }
    }

    /// The event for a device that is no longer valid.
    pub fn revoke(remote: bool) -> (event: DeviceEvent)
        ensures
            event == (DeviceEvent { device: None, remote }),
    {
        DeviceEvent { device: None, remote }
    }
}

/// Emitted when a device is removed on request. This is not sent by a
/// normal logout or when it is revoked remotely.
#[derive(Debug, PartialEq, Eq)]
pub struct RemoveDeviceEvent {
    pub account_token: AccountToken,
    pub removed_device: Device,
    pub new_devices: Vec<Device>,
}

/// Finds the first device whose public key is `key`.
pub fn find_device_by_key(devices: &Vec<Device>, key: &PublicKey) -> (found: Option<usize>)
    ensures
        match found {
            Some(i) => {
                &&& i < devices@.len()
                &&& devices@[i as int].pubkey.bytes@ == key.bytes@
                &&& forall|j: int| 0 <= j < i ==> devices@[j].pubkey.bytes@ != key.bytes@
            },
            None => forall|j: int| 0 <= j < devices@.len() ==> devices@[j].pubkey.bytes@
                != key.bytes@,
        },
{
    let mut i: usize = 0;
    while i < devices.len()
        invariant
            i <= devices.len(),
            forall|j: int| 0 <= j < i ==> devices@[j].pubkey.bytes@ != key.bytes@,
        decreases devices.len() - i,
    {
        if devices[i].pubkey.same_as(key) {
            return Some(i);
        }
        i = i + 1;
    }
    None
}

} // verus!
