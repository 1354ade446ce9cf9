//! What to do with settings that an earlier version has written, and with
//! the files that an update of the operating system has moved away.

use crate::device::{find_device_by_key, Device, DeviceData};
use crate::wireguard::{PublicKey, WireguardData};
use vstd::prelude::*;

verus! {

/// The name of the settings file.
pub const SETTINGS_FILE: &'static str = "settings.json";

/// The version of the settings that the latest migration starts from.
pub const V5: u64 = 5;

/// The version of the settings that the latest migration arrives at.
pub const V6: u64 = 6;

/// Why the settings could not be migrated.
#[derive(Clone, Copy, Debug, PartialEq, Eq, Structural)]
pub enum Error {
    /// Failed to read the settings.
    ReadError,
    /// The settings are malformed.
    ParseError,
    /// The settings are of no version that can be read.
    NoMatchingVersion,
    /// The settings could not be serialized.
    SerializeError,
    /// The settings could not be opened for writing.
    OpenError,
    /// The new settings could not be written.
    WriteError,
    /// The settings could not be synced to disk.
    SyncError,
}

/// What reading the settings file came to.
#[derive(Clone, Copy, Debug, PartialEq, Eq, Structural)]
pub enum SettingsFile {
    /// There is no such file.
    Absent,
    /// The file is there and could not be read.
    Unreadable,
    /// The file is not JSON.
    Malformed,
    /// The file is JSON, and not an object.
    NotAnObject,
    /// The file holds an object.
    Object,
}

/// Whether the migrations are to run on what the settings file holds:
/// they run on an object, a missing file needs none, and anything else
/// is a failure.
pub fn migrate_all(found: SettingsFile) -> (run: Result<bool, Error>)
    ensures
        run == match found {
            SettingsFile::Absent => Ok::<bool, Error>(false),
            SettingsFile::Unreadable => Err(Error::ReadError),
            SettingsFile::Malformed => Err(Error::ParseError),
            SettingsFile::NotAnObject => Err(Error::NoMatchingVersion),
            SettingsFile::Object => Ok(true),
        },
{
    match found {
        SettingsFile::Absent => Ok(false),
        SettingsFile::Unreadable => Err(Error::ReadError),
        SettingsFile::Malformed => Err(Error::ParseError),
        SettingsFile::NotAnObject => Err(Error::NoMatchingVersion),
        SettingsFile::Object => Ok(true),
    }
}

/// How writing the migrated settings went.
#[derive(Clone, Copy, Debug, PartialEq, Eq, Structural)]
pub enum WriteStage {
    /// Serializing failed.
    Serialize,
    /// Opening the file failed.
    Open,
    /// Writing failed.
    Write,
    /// Syncing to disk failed.
    Sync,
}

/// The failure that a stage of writing the settings stands for.
pub fn write_failure(stage: WriteStage) -> (error: Error)
    ensures
        error == match stage {
            WriteStage::Serialize => Error::SerializeError,
            WriteStage::Open => Error::OpenError,
            WriteStage::Write => Error::WriteError,
            WriteStage::Sync => Error::SyncError,
        },
{
    match stage {
        WriteStage::Serialize => Error::SerializeError,
        WriteStage::Open => Error::OpenError,
        WriteStage::Write => Error::WriteError,
        WriteStage::Sync => Error::SyncError,
    }
}

/// A field of the settings.
#[derive(Debug, PartialEq, Eq)]
pub enum Field<T> {
    /// The field is missing or null.
    Absent,
    /// The field holds something else than it should.
    Invalid,
    /// The field holds this value.
    Valid(T),
}

/// What is to be done about the device of the account in the settings.
#[derive(Debug, PartialEq, Eq)]
pub enum DeviceTask {
    /// Look for the device that has the key in the settings.
    CacheFromWireguardKey { token: String, wg_data: WireguardData },
    /// Make a new device for the account.
    CacheFromAccount { token: String },
}

/// What a migration of the settings comes to.
#[derive(Debug, PartialEq, Eq)]
pub struct Migration {
    /// The version to write into the settings, where they are migrated.
    pub settings_version: Option<u64>,
    /// What to start about the account's device, if anything.
    pub task: Option<DeviceTask>,
}

/// Whether the settings are of the version that the migration starts from.
pub fn version_matches(version: Option<u64>) -> (matches: bool)
    ensures
        matches == (version == Some(V5)),
{
    match version {
        Some(version) => version == V5,
        None => false,
    }
}

/// The migration of settings of `version`.
///
/// Settings of another version than the one that the migration starts
/// from are left alone. Otherwise the settings get the next version, and
/// where they name an account, its device is looked for by the key in the
/// settings, or made anew where they hold no key. A field that holds
/// something else than it should fails the migration.
pub open spec fn spec_migrate(
    version: Option<u64>,
    account_token: Field<String>,
    wireguard: Field<WireguardData>,
) -> Result<Migration, Error> {
    if version != Some(V5) {
        Ok(Migration { settings_version: None, task: None })
    } else {
        match account_token {
            Field::Absent => Ok(Migration { settings_version: Some(V6), task: None }),
            Field::Invalid => Err(Error::ParseError),
            Field::Valid(token) => match wireguard {
                Field::Absent => Ok(
                    Migration {
                        settings_version: Some(V6),
                        task: Some(DeviceTask::CacheFromAccount { token }),
                    },
                ),
                Field::Invalid => Err(Error::ParseError),
                Field::Valid(wg_data) => Ok(
                    Migration {
                        settings_version: Some(V6),
                        task: Some(DeviceTask::CacheFromWireguardKey { token, wg_data }),
                    },
                ),
            },
        }
    }
}

/// The migration of settings of `version`.
pub fn migrate(
    version: Option<u64>,
    account_token: Field<String>,
    wireguard: Field<WireguardData>,
) -> (migration: Result<Migration, Error>)
    ensures
        migration == spec_migrate(version, account_token, wireguard),
{
    if !version_matches(version) {
        return Ok(Migration { settings_version: None, task: None });
    }
    match account_token {
        Field::Absent => Ok(Migration { settings_version: Some(V6), task: None }),
        Field::Invalid => Err(Error::ParseError),
        Field::Valid(token) => match wireguard {
            Field::Absent => Ok(
                Migration {
                    settings_version: Some(V6),
                    task: Some(DeviceTask::CacheFromAccount { token }),
                },
            ),
            Field::Invalid => Err(Error::ParseError),
            Field::Valid(wg_data) => Ok(
                Migration {
                    settings_version: Some(V6),
                    task: Some(DeviceTask::CacheFromWireguardKey { token, wg_data }),
                },
            ),
        },
    }
}

/// What follows from the list of an account's devices.
#[derive(Debug, PartialEq, Eq)]
pub enum KeyLookup {
    /// The list could not be had; nothing is done.
    GiveUp,
    /// The device with the key is in the list: it is the one to use.
    Found(DeviceData),
    /// No device has the key: a new device is to be made for the account.
    Generate { token: String },
}

/// Looks for the device that has the public key `key` among the devices of
/// the account, which are `None` where they could not be listed. The first
/// device with the key is the one that is used.
pub fn cache_from_wireguard_key(
    devices: Option<Vec<Device>>,
    token: String,
    wg_data: WireguardData,
    key: &PublicKey,
) -> (lookup: KeyLookup)
    ensures
        match devices {
            None => lookup == KeyLookup::GiveUp,
            Some(list) => match lookup {
                KeyLookup::Found(data) => {
                    &&& data.token == token
                    &&& data.wg_data == wg_data
                    &&& exists|i: int|
                        {
                            &&& 0 <= i < list@.len()
                            &&& list@[i] == data.device
                            &&& list@[i].pubkey.bytes@ == key.bytes@
                            &&& forall|j: int| 0 <= j < i ==> list@[j].pubkey.bytes@ != key.bytes@
                        }
                },
                KeyLookup::Generate { token: account } => {
                    &&& account == token
                    &&& forall|j: int| 0 <= j < list@.len() ==> list@[j].pubkey.bytes@ != key.bytes@
                },
                KeyLookup::GiveUp => false,
            },
        },
{
    match devices {
        None => KeyLookup::GiveUp,
        Some(list) => {
            let mut list = list;
            match find_device_by_key(&list, key) {
                Some(i) => {
                    let ghost all = list@;
                    let device = list.remove(i);
                    assert(all[i as int] == device);
                    KeyLookup::Found(DeviceData { token, device, wg_data })
                },
                None => KeyLookup::Generate { token },
            }
        },
    }
}

/// Why the files that an update of the system moved away are not restored.
#[derive(Clone, Copy, Debug, PartialEq, Eq, Structural)]
pub enum WindowsError {
    /// Unable to find the local application data directory.
    FindAppData,
    /// Could not read who owns the backup directory.
    SecurityInformation,
    /// The backup directory is not owned by the system or its administrators.
    WrongOwner,
    /// Failed to copy files.
    IoError,
}

/// Who owns the backup directory.
#[derive(Clone, Copy, Debug, PartialEq, Eq, Structural)]
pub enum Owner {
    /// The owner could not be read.
    Unreadable,
    /// The directory has no owner.
    Nobody,
    /// The local system account.
    LocalSystem,
    /// The built-in group of administrators.
    BuiltinAdministrators,
    /// Anyone else.
    Other,
}

/// What was found where the settings are to go and where they may have
/// been moved to.
#[derive(Clone, Copy, Debug, PartialEq, Eq, Structural)]
pub struct BackupProbe {
    /// Whether the system names a local application data directory.
    pub appdata_found: bool,
    /// Whether the settings directory lies below it.
    pub below_appdata: bool,
    /// Whether the settings directory holds a settings file.
    pub settings_exist: bool,
    /// Whether the path of the settings directory starts with a drive and
    /// a root.
    pub has_drive_and_root: bool,
    /// Whether the backup holds the settings directory.
    pub backup_exists: bool,
    pub owner: Owner,
}

/// A file of the settings directory, and whether the settings are of no
/// use without it.
pub struct MigratedFile {
    pub name: &'static str,
    pub required: bool,
}

/// The files that are restored from a backup.
pub fn migrate_files() -> (files: [MigratedFile; 2])
    ensures
        files@.len() == 2,
        files@[0].name@ == SETTINGS_FILE@,
        files@[0].required,
        files@[1].name@ == "account-history.json"@,
        !files@[1].required,
{
    [
        MigratedFile { name: SETTINGS_FILE, required: true },
        MigratedFile { name: "account-history.json", required: false },
    ]
}

/// Whether files are restored from the backup that an update of the
/// system has left.
///
/// Nothing is restored where the settings directory is not below the
/// application data directory, where it holds settings already, or where
/// there is no backup of it. A backup is trusted only if the system or its
/// administrators own it.
pub open spec fn spec_restore_from_backup(probe: BackupProbe) -> Result<bool, WindowsError> {
    if !probe.appdata_found {
        Err(WindowsError::FindAppData)
    } else if !probe.below_appdata || probe.settings_exist || !probe.has_drive_and_root
        || !probe.backup_exists {
        Ok(false)
    } else {
        match probe.owner {
            Owner::Unreadable => Err(WindowsError::SecurityInformation),
            Owner::LocalSystem => Ok(true),
            Owner::BuiltinAdministrators => Ok(true),
            _ => Err(WindowsError::WrongOwner),
        }
    }
}

/// Whether files are restored from the backup.
pub fn restore_from_backup(probe: BackupProbe) -> (restore: Result<bool, WindowsError>)
    ensures
        restore == spec_restore_from_backup(probe),
{
    if !probe.appdata_found {
        return Err(WindowsError::FindAppData);
    }
    if !probe.below_appdata || probe.settings_exist || !probe.has_drive_and_root
        || !probe.backup_exists {
        return Ok(false);
    }
    match probe.owner {
        Owner::Unreadable => Err(WindowsError::SecurityInformation),
        Owner::LocalSystem => Ok(true),
        Owner::BuiltinAdministrators => Ok(true),
        _ => Err(WindowsError::WrongOwner),
    }
}

/// How copying one file from the backup went.
#[derive(Clone, Copy, Debug, PartialEq, Eq, Structural)]
pub struct CopyOutcome {
    /// Whether the settings are of no use without the file.
    pub required: bool,
    pub copied: bool,
}

/// What restoring from a backup comes to: it has succeeded unless a file
/// that is required could not be copied.
pub fn migrate_after_windows_update(copies: &Vec<CopyOutcome>) -> (restored: Result<
    bool,
    WindowsError,
>)
    ensures
        restored == if exists|i: int|
            0 <= i < copies@.len() && copies@[i].required && !copies@[i].copied {
            Err::<bool, WindowsError>(WindowsError::IoError)
        } else {
            Ok(true)
        },
{
    let mut i: usize = 0;
    while i < copies.len()
        invariant
            i <= copies.len(),
            forall|k: int| 0 <= k < i ==> !(copies@[k].required && !copies@[k].copied),
        decreases copies.len() - i,
    {
        if copies[i].required && !copies[i].copied {
            return Err(WindowsError::IoError);
        }
        i = i + 1;
    }
    Ok(true)
}

} // verus!
