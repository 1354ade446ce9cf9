use mullvad_rpc::api::{ApiProxyRequest, MullvadProxyConfigProvider};
use mullvad_rpc::error::ErrorKind;
use mullvad_rpc::net::{IpAddress, SocketAddress};
use mullvad_rpc::proxy::{
    CacheError, CacheRead, ProxyConfig, ProxyConfigSettings, ShadowsocksProxySettings,
    CURRENT_CONFIG_FILENAME,
};

fn settings() -> ShadowsocksProxySettings {
    ShadowsocksProxySettings {
        peer: SocketAddress::new(IpAddress::V4(203, 0, 113, 9), 8388),
        password: "p".to_string(),
        cipher: "aes-256-gcm".to_string(),
    }
}

fn proxied_config() -> ProxyConfig {
    ProxyConfig::Proxied(ProxyConfigSettings::Shadowsocks(settings()))
}

#[test]
fn a_missing_file_stands_for_a_direct_connection() {
    assert_eq!(ProxyConfig::from_cache(CacheRead::NotFound), Ok(ProxyConfig::Direct));
    assert_eq!(ProxyConfig::try_from_cache(CacheRead::NotFound), ProxyConfig::Direct);
}

#[test]
fn a_file_that_describes_a_mode_loads_as_that_mode() {
    assert_eq!(
        ProxyConfig::from_cache(CacheRead::Parsed(proxied_config())),
        Ok(proxied_config())
    );
    assert_eq!(
        ProxyConfig::try_from_cache(CacheRead::Parsed(proxied_config())),
        proxied_config()
    );
    assert_eq!(
        ProxyConfig::try_from_cache(CacheRead::Parsed(ProxyConfig::Direct)),
        ProxyConfig::Direct
    );
}

#[test]
fn a_file_that_cannot_be_read_or_understood_is_an_error() {
    assert_eq!(ProxyConfig::from_cache(CacheRead::Unreadable), Err(CacheError::Io));
    assert_eq!(ProxyConfig::from_cache(CacheRead::Malformed), Err(CacheError::Deserialization));
    assert_eq!(CacheError::Io.kind(), ErrorKind::Io);
    assert_eq!(CacheError::Deserialization.kind(), ErrorKind::ConfigParse);
}

#[test]
fn whatever_goes_wrong_the_start_is_a_direct_connection() {
    assert_eq!(ProxyConfig::try_from_cache(CacheRead::Unreadable), ProxyConfig::Direct);
    assert_eq!(ProxyConfig::try_from_cache(CacheRead::Malformed), ProxyConfig::Direct);
}

#[test]
fn only_a_proxied_mode_is_a_proxy() {
    assert!(!ProxyConfig::Direct.is_proxy());
    assert!(proxied_config().is_proxy());
}

#[test]
fn the_endpoint_is_the_address_of_the_proxy() {
    assert_eq!(ProxyConfig::Direct.get_endpoint(), None);
    assert_eq!(
        proxied_config().get_endpoint(),
        Some(SocketAddress::new(IpAddress::V4(203, 0, 113, 9), 8388))
    );
}

#[test]
fn a_copy_of_a_mode_is_equal_to_it() {
    assert_eq!(proxied_config().clone(), proxied_config());
    assert_eq!(ProxyConfig::Direct.clone(), ProxyConfig::Direct);
}

#[test]
fn the_mode_is_stored_under_its_file_name() {
    assert_eq!(CURRENT_CONFIG_FILENAME, "api-endpoint.json");
}

#[test]
fn requests_for_the_next_mode_are_numbered_from_zero() {
    let mut provider = MullvadProxyConfigProvider::new();
    assert_eq!(provider.next(), ApiProxyRequest { retry_attempt: 0 });
    assert_eq!(provider.next(), ApiProxyRequest { retry_attempt: 1 });
    assert_eq!(provider.next(), ApiProxyRequest { retry_attempt: 2 });
}

#[test]
fn without_an_answer_the_mode_is_direct() {
    assert_eq!(MullvadProxyConfigProvider::received(None), ProxyConfig::Direct);
    assert_eq!(MullvadProxyConfigProvider::received(Some(proxied_config())), proxied_config());
}

#[test]
fn socket_addresses_give_their_parts() {
    let addr = SocketAddress::new(IpAddress::V4(193, 138, 218, 78), 443);
    assert_eq!(addr.ip(), IpAddress::V4(193, 138, 218, 78));
    assert_eq!(addr.port(), 443);
    assert_eq!(addr.with_port(80), SocketAddress::new(IpAddress::V4(193, 138, 218, 78), 80));
}
