use mullvad_rpc::cli::{
    CommandError, Connect, CustomObfuscatorSettings, Listen, Obfuscation, ObfuscationSettings,
    TunnelState,
};
use mullvad_rpc::device::{
    find_device_by_key, Device, DeviceConfig, DeviceData, DeviceEvent, RemoveDeviceEvent,
};
use mullvad_rpc::migrations::{
    cache_from_wireguard_key, migrate, migrate_after_windows_update,
    migrate_all, migrate_files, restore_from_backup, version_matches, write_failure, BackupProbe,
    CopyOutcome, DeviceTask, Error, Field, KeyLookup, Migration, Owner, SettingsFile,
    WindowsError, WriteStage,
};
use mullvad_rpc::net::{IpAddress, SocketAddress};
use mullvad_rpc::obfuscation::{ObfuscatorConfig, ObfuscatorType};
use mullvad_rpc::rest::{
    AccountsProxy, ApiProxy, AppVersionProxy, AppVersionResponse, DeviceResponse, DevicesProxy,
    Method, MullvadRestHandle, ProblemReportProxy, PLATFORM_VERSION_HEADER,
};
use mullvad_rpc::text::capitalize_words;
use mullvad_rpc::time::Timestamp;
use mullvad_rpc::wireguard::{
    AssociatedAddresses, Ipv4Network, Ipv6Network, PrivateKey, PublicKey, WireguardData,
};

fn key(byte: u8) -> PublicKey {
    PublicKey { bytes: [byte; 32] }
}

fn device(name: &str, byte: u8) -> Device {
    Device { id: format!("id-{}", byte), name: name.to_string(), pubkey: key(byte) }
}

fn addresses() -> AssociatedAddresses {
    AssociatedAddresses {
        ipv4_address: Ipv4Network { addr: 0x0a40_0001, prefix: 32 },
        ipv6_address: Ipv6Network { addr: 0xfc00_bbbb_bbbb_bb01 << 64 | 1, prefix: 128 },
    }
}

fn wg_data() -> WireguardData {
    WireguardData {
        private_key: PrivateKey { bytes: [9; 32] },
        addresses: addresses(),
        created: Timestamp { secs: 1_650_000_000, nanos: 0 },
    }
}

fn data(name: &str, byte: u8) -> DeviceData {
    DeviceData { token: "1234".to_string(), device: device(name, byte), wg_data: wg_data() }
}

fn handle() -> MullvadRestHandle {
    MullvadRestHandle { hostname: "api.mullvad.net".to_string() }
}

#[test]
fn pretty_name_capitalizes_each_word() {
    assert_eq!(device("happy seagull", 1).pretty_name(), "Happy Seagull");
}

#[test]
fn pretty_name_puts_one_space_between_words() {
    assert_eq!(device("  happy \t\n  big seagull  ", 1).pretty_name(), "Happy Big Seagull");
    assert_eq!(device("", 1).pretty_name(), "");
    assert_eq!(device(" \u{a0} ", 1).pretty_name(), "");
    assert_eq!(device("x", 1).pretty_name(), "X");
}

#[test]
fn pretty_name_leaves_the_rest_of_a_word_as_it_is() {
    assert_eq!(device("hAPPY sEAGULL 2nd", 1).pretty_name(), "HAPPY SEAGULL 2nd");
}

#[test]
fn pretty_name_knows_capitals_of_more_than_one_character() {
    assert_eq!(device("\u{df}eta \u{e9}mile", 1).pretty_name(), "SSeta \u{c9}mile");
    assert_eq!(capitalize_words("\u{fb01}sh\u{2003}cake"), "FIsh Cake");
}

#[test]
fn a_device_comes_out_of_its_data() {
    assert_eq!(Device::from(data("happy seagull", 1)), device("happy seagull", 1));
    assert_eq!(
        DeviceConfig::from(data("happy seagull", 1)),
        DeviceConfig { token: "1234".to_string(), device: device("happy seagull", 1) }
    );
    assert_eq!(device("a", 2).clone(), device("a", 2));
}

#[test]
fn events_carry_the_device_without_its_private_key() {
    let config = DeviceConfig { token: "1234".to_string(), device: device("happy seagull", 1) };
    assert_eq!(
        DeviceEvent::new(Some(data("happy seagull", 1)), true),
        DeviceEvent { device: Some(DeviceConfig::from(data("happy seagull", 1))), remote: true }
    );
    assert_eq!(DeviceEvent::new(None, false), DeviceEvent { device: None, remote: false });
    assert_eq!(
        DeviceEvent::from_device(data("happy seagull", 1), false),
        DeviceEvent { device: Some(config), remote: false }
    );
    assert_eq!(DeviceEvent::revoke(true), DeviceEvent { device: None, remote: true });
    assert_eq!(DeviceEvent::revoke(false), DeviceEvent { device: None, remote: false });
}

#[test]
fn a_removal_names_the_device_and_those_that_are_left() {
    let event = RemoveDeviceEvent {
        account_token: "1234".to_string(),
        removed_device: device("a", 1),
        new_devices: vec![device("b", 2)],
    };
    assert_eq!(event.new_devices.len(), 1);
    assert_eq!(event.removed_device.pretty_name(), "A");
}

#[test]
fn keys_are_the_same_where_all_their_bytes_are() {
    let mut other = key(3);
    assert!(key(3).same_as(&other));
    other.bytes[31] = 4;
    assert!(!key(3).same_as(&other));
    other.bytes[31] = 3;
    other.bytes[0] = 0;
    assert!(!key(3).same_as(&other));
}

#[test]
fn the_first_device_with_the_key_is_found() {
    let devices = vec![device("a", 1), device("b", 2), device("c", 2), device("d", 3)];
    assert_eq!(find_device_by_key(&devices, &key(2)), Some(1));
    assert_eq!(find_device_by_key(&devices, &key(3)), Some(3));
    assert_eq!(find_device_by_key(&devices, &key(4)), None);
    assert_eq!(find_device_by_key(&vec![], &key(1)), None);
}

#[test]
fn the_device_with_the_key_in_the_settings_is_used() {
    let devices = vec![device("a", 1), device("b", 2), device("c", 2)];
    assert_eq!(
        cache_from_wireguard_key(Some(devices), "1234".to_string(), wg_data(), &key(2)),
        KeyLookup::Found(data("b", 2))
    );
}

#[test]
fn without_a_device_with_the_key_a_new_one_is_made() {
    let devices = vec![device("a", 1)];
    assert_eq!(
        cache_from_wireguard_key(Some(devices), "1234".to_string(), wg_data(), &key(2)),
        KeyLookup::Generate { token: "1234".to_string() }
    );
    assert_eq!(
        cache_from_wireguard_key(None, "1234".to_string(), wg_data(), &key(2)),
        KeyLookup::GiveUp
    );
}

#[test]
fn only_settings_of_the_fifth_version_are_migrated() {
    assert!(version_matches(Some(5)));
    assert!(!version_matches(Some(4)));
    assert!(!version_matches(Some(6)));
    assert!(!version_matches(None));
    assert_eq!(
        migrate(Some(4), Field::Valid("1234".to_string()), Field::Valid(wg_data())),
        Ok(Migration { settings_version: None, task: None })
    );
    assert_eq!(
        migrate(None, Field::Invalid, Field::Invalid),
        Ok(Migration { settings_version: None, task: None })
    );
}

#[test]
fn migrated_settings_get_the_sixth_version() {
    assert_eq!(
        migrate(Some(5), Field::Absent, Field::Valid(wg_data())),
        Ok(Migration { settings_version: Some(6), task: None })
    );
    assert_eq!(
        migrate(Some(5), Field::Valid("1234".to_string()), Field::Valid(wg_data())),
        Ok(Migration {
            settings_version: Some(6),
            task: Some(DeviceTask::CacheFromWireguardKey {
                token: "1234".to_string(),
                wg_data: wg_data(),
            }),
        })
    );
    assert_eq!(
        migrate(Some(5), Field::Valid("1234".to_string()), Field::Absent),
        Ok(Migration {
            settings_version: Some(6),
            task: Some(DeviceTask::CacheFromAccount { token: "1234".to_string() }),
        })
    );
}

#[test]
fn a_field_of_the_wrong_shape_fails_the_migration() {
    assert_eq!(migrate(Some(5), Field::Invalid, Field::Absent), Err(Error::ParseError));
    assert_eq!(
        migrate(Some(5), Field::Valid("1234".to_string()), Field::Invalid),
        Err(Error::ParseError)
    );
    assert_eq!(
        migrate(Some(5), Field::Absent, Field::Invalid),
        Ok(Migration { settings_version: Some(6), task: None })
    );
}

#[test]
fn migrations_run_on_an_object_only() {
    assert_eq!(migrate_all(SettingsFile::Absent), Ok(false));
    assert_eq!(migrate_all(SettingsFile::Object), Ok(true));
    assert_eq!(migrate_all(SettingsFile::Unreadable), Err(Error::ReadError));
    assert_eq!(migrate_all(SettingsFile::Malformed), Err(Error::ParseError));
    assert_eq!(migrate_all(SettingsFile::NotAnObject), Err(Error::NoMatchingVersion));
    assert_eq!(write_failure(WriteStage::Serialize), Error::SerializeError);
    assert_eq!(write_failure(WriteStage::Open), Error::OpenError);
    assert_eq!(write_failure(WriteStage::Write), Error::WriteError);
    assert_eq!(write_failure(WriteStage::Sync), Error::SyncError);
}

fn probe() -> BackupProbe {
    BackupProbe {
        appdata_found: true,
        below_appdata: true,
        settings_exist: false,
        has_drive_and_root: true,
        backup_exists: true,
        owner: Owner::LocalSystem,
    }
}

#[test]
fn a_backup_is_restored_where_the_system_owns_it() {
    assert_eq!(restore_from_backup(probe()), Ok(true));
    assert_eq!(
        restore_from_backup(BackupProbe { owner: Owner::BuiltinAdministrators, ..probe() }),
        Ok(true)
    );
    assert_eq!(
        restore_from_backup(BackupProbe { owner: Owner::Other, ..probe() }),
        Err(WindowsError::WrongOwner)
    );
    assert_eq!(
        restore_from_backup(BackupProbe { owner: Owner::Nobody, ..probe() }),
        Err(WindowsError::WrongOwner)
    );
    assert_eq!(
        restore_from_backup(BackupProbe { owner: Owner::Unreadable, ..probe() }),
        Err(WindowsError::SecurityInformation)
    );
}

#[test]
fn nothing_is_restored_where_there_is_nothing_to_restore() {
    assert_eq!(
        restore_from_backup(BackupProbe { appdata_found: false, ..probe() }),
        Err(WindowsError::FindAppData)
    );
    assert_eq!(restore_from_backup(BackupProbe { below_appdata: false, ..probe() }), Ok(false));
    assert_eq!(restore_from_backup(BackupProbe { settings_exist: true, ..probe() }), Ok(false));
    assert_eq!(
        restore_from_backup(BackupProbe { has_drive_and_root: false, ..probe() }),
        Ok(false)
    );
    assert_eq!(
        restore_from_backup(BackupProbe {
            backup_exists: false,
            owner: Owner::Other,
            ..probe()
        }),
        Ok(false)
    );
}

#[test]
fn a_restore_fails_only_for_a_file_that_is_required() {
    let ok = CopyOutcome { required: true, copied: true };
    let optional_lost = CopyOutcome { required: false, copied: false };
    let required_lost = CopyOutcome { required: true, copied: false };
    assert_eq!(migrate_after_windows_update(&vec![ok, optional_lost]), Ok(true));
    assert_eq!(migrate_after_windows_update(&vec![]), Ok(true));
    assert_eq!(
        migrate_after_windows_update(&vec![required_lost, ok]),
        Err(WindowsError::IoError)
    );
    assert_eq!(
        migrate_after_windows_update(&vec![ok, optional_lost, required_lost]),
        Err(WindowsError::IoError)
    );
    let files = migrate_files();
    assert_eq!(files[0].name, "settings.json");
    assert!(files[0].required);
    assert_eq!(files[1].name, "account-history.json");
    assert!(!files[1].required);
}

#[test]
fn connect_waits_until_the_tunnel_is_up_or_has_failed() {
    assert_eq!(Connect.name(), "connect");
    assert!(Connect::listens(true, true));
    assert!(!Connect::listens(true, false));
    assert!(!Connect::listens(false, true));
    assert_eq!(Connect::run(Some(TunnelState::Connecting)), Listen::Continue);
    assert_eq!(Connect::run(Some(TunnelState::Disconnected)), Listen::Continue);
    assert_eq!(Connect::run(Some(TunnelState::Disconnecting)), Listen::Continue);
    assert_eq!(Connect::run(Some(TunnelState::Connected)), Listen::Finish(Ok(())));
    assert_eq!(
        Connect::run(Some(TunnelState::Error)),
        Listen::Finish(Err(CommandError::CommandFailed))
    );
    assert_eq!(Connect::run(None), Listen::Finish(Err(CommandError::StatusListenerFailed)));
}

#[test]
fn obfuscators_are_chosen_by_name() {
    assert_eq!(Obfuscation.name(), "obfuscation");
    assert_eq!(Obfuscation::type_names(), ["none", "mock", "udp2tcp", "custom"]);
    assert_eq!(Obfuscation::parse_type("none"), Some(None));
    assert_eq!(Obfuscation::parse_type("mock"), Some(Some(ObfuscatorType::Mock)));
    assert_eq!(Obfuscation::parse_type("udp2tcp"), Some(Some(ObfuscatorType::Udp2Tcp)));
    assert_eq!(Obfuscation::parse_type("custom"), Some(Some(ObfuscatorType::Custom)));
    assert_eq!(Obfuscation::parse_type("Custom"), None);
    assert_eq!(Obfuscation::parse_type(""), None);
}

#[test]
fn the_custom_obfuscator_needs_its_settings_first() {
    let bare = ObfuscationSettings { active_obfuscator: None, custom_obfuscator_settings: None };
    assert_eq!(
        Obfuscation::handle_set(bare, "custom"),
        Err(CommandError::CustomSettingsMissing)
    );
    assert_eq!(Obfuscation::handle_set(bare, "tor"), Err(CommandError::UnknownObfuscator));
    assert_eq!(
        Obfuscation::handle_set(bare, "udp2tcp"),
        Ok(ObfuscationSettings {
            active_obfuscator: Some(ObfuscatorType::Udp2Tcp),
            custom_obfuscator_settings: None,
        })
    );
    let address = SocketAddress::new(IpAddress::V4(127, 0, 0, 1), 3030);
    let endpoint = SocketAddress::new(IpAddress::V4(192, 0, 2, 1), 443);
    let with_settings = Obfuscation::handle_custom_settings(bare, address, endpoint);
    assert_eq!(
        with_settings.custom_obfuscator_settings,
        Some(CustomObfuscatorSettings { address, endpoint })
    );
    assert_eq!(
        Obfuscation::handle_set(with_settings, "custom"),
        Ok(ObfuscationSettings {
            active_obfuscator: Some(ObfuscatorType::Custom),
            custom_obfuscator_settings: Some(CustomObfuscatorSettings { address, endpoint }),
        })
    );
    assert_eq!(
        Obfuscation::handle_set(with_settings, "none").unwrap().active_obfuscator,
        None
    );
    let config = ObfuscatorConfig::Custom { address, remote_endpoint: endpoint };
    assert_ne!(config, ObfuscatorConfig::Mock);
    assert_ne!(config, ObfuscatorConfig::Udp2Tcp { endpoint });
}

#[test]
fn account_requests_name_their_paths() {
    let accounts = AccountsProxy::new(handle());
    assert_eq!(accounts.handle, handle());
    let expiry = accounts.get_expiry();
    assert_eq!(expiry.path, "accounts/v1-alpha/accounts/me");
    assert_eq!(expiry.method, Method::Get);
    assert!(expiry.authenticated);
    assert_eq!(expiry.expected_status, 200);
    let create = accounts.create_account();
    assert_eq!(create.path, "accounts/v1-alpha/accounts");
    assert_eq!(create.method, Method::Post);
    assert!(!create.authenticated);
    assert_eq!(create.expected_status, 201);
    let voucher = accounts.submit_voucher();
    assert_eq!(voucher.path, "app/v1/submit-voucher");
    assert_eq!(voucher.method, Method::Post);
    assert!(voucher.authenticated);
    assert_eq!(voucher.expected_status, 200);
    let www = accounts.get_www_auth_token();
    assert_eq!(www.path, "app/v1/www-auth-token");
    assert_eq!(www.method, Method::Post);
    assert!(www.authenticated);
    assert_eq!(www.expected_status, 200);
}

#[test]
fn device_requests_name_the_device_in_their_paths() {
    let devices = DevicesProxy::new(handle());
    let id = "7c6a".to_string();
    let create = devices.create();
    assert_eq!((create.path.as_str(), create.method, create.expected_status),
        ("accounts/v1-alpha/devices", Method::Post, 201));
    let get = devices.get(&id);
    assert_eq!((get.path.as_str(), get.method, get.expected_status),
        ("accounts/v1-alpha/devices/7c6a", Method::Get, 200));
    let list = devices.list();
    assert_eq!((list.path.as_str(), list.method, list.expected_status),
        ("accounts/v1-alpha/devices", Method::Get, 200));
    let remove = devices.remove(&id);
    assert_eq!((remove.path.as_str(), remove.method, remove.expected_status),
        ("accounts/v1-alpha/devices/7c6a", Method::Delete, 204));
    let replace = devices.replace_wg_key(&id);
    assert_eq!((replace.path.as_str(), replace.method, replace.expected_status),
        ("accounts/v1-alpha/devices/7c6a/pubkey", Method::Put, 200));
    assert!(create.authenticated && get.authenticated && list.authenticated);
    assert!(remove.authenticated && replace.authenticated);
}

#[test]
fn the_answer_about_a_device_gives_the_device_and_its_addresses() {
    let response = || DeviceResponse {
        id: "id-1".to_string(),
        name: "happy seagull".to_string(),
        pubkey: key(1),
        ipv4_address: addresses().ipv4_address,
        ipv6_address: addresses().ipv6_address,
    };
    assert_eq!(DevicesProxy::created(response()), (device("happy seagull", 1), addresses()));
    assert_eq!(DevicesProxy::replaced(response()), addresses());
}

#[test]
fn the_other_requests_need_no_token() {
    let report = ProblemReportProxy::new(handle()).problem_report();
    assert_eq!((report.path.as_str(), report.method, report.expected_status),
        ("app/v1/problem-report", Method::Post, 204));
    assert!(!report.authenticated);
    let addrs = ApiProxy::new(handle()).get_api_addrs();
    assert_eq!((addrs.path.as_str(), addrs.method, addrs.expected_status),
        ("app/v1/api-addrs", Method::Get, 200));
    assert!(!addrs.authenticated);
    let check = AppVersionProxy::new(handle()).version_check(&"2022.2".to_string(), "linux");
    assert_eq!((check.path.as_str(), check.method, check.expected_status),
        ("app/v1/releases/linux/2022.2", Method::Get, 200));
    assert!(!check.authenticated);
    assert_eq!(PLATFORM_VERSION_HEADER, "M-Platform-Version");
    let answer = AppVersionResponse {
        supported: true,
        latest: "2022.2".to_string(),
        latest_stable: None,
        latest_beta: "2022.3-beta1".to_string(),
    };
    assert!(answer.supported);
}
