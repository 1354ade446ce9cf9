use mullvad_rpc::error::ErrorKind;
use mullvad_rpc::https_client_with_sni::{
    Attempt, AttemptFailure, AttemptOutcome, AttemptPlan, ConnectError, ConnectStep,
    HttpsConnectorRequest, HttpsConnectorWithSni, InnerProxyConfig, PendingLookup,
    ProxyConfigError, Resolution, SocketOutcome, CONNECT_TIMEOUT_SECS, DEFAULT_PORT,
};
use mullvad_rpc::net::{IpAddress, SocketAddress};
use mullvad_rpc::proxy::{ProxyConfig, ProxyConfigSettings, ShadowsocksProxySettings};
use mullvad_rpc::uri::{MalformedUri, TargetUri};

fn api_ip() -> IpAddress {
    IpAddress::V4(203, 0, 113, 5)
}

fn api_addr() -> SocketAddress {
    SocketAddress::new(api_ip(), 443)
}

fn proxy_addr() -> SocketAddress {
    SocketAddress::new(IpAddress::V4(203, 0, 113, 9), 8388)
}

fn shadowsocks(cipher: &str) -> ShadowsocksProxySettings {
    ShadowsocksProxySettings {
        peer: proxy_addr(),
        password: "p".to_string(),
        cipher: cipher.to_string(),
    }
}

fn proxied(cipher: &str) -> ProxyConfig {
    ProxyConfig::Proxied(ProxyConfigSettings::Shadowsocks(shadowsocks(cipher)))
}

fn example_uri() -> TargetUri {
    TargetUri::parse("https://example.test").unwrap()
}

fn attempt_of(step: ConnectStep) -> Attempt {
    match step {
        ConnectStep::Attempt(attempt) => attempt,
        other => panic!("expected an attempt, got {:?}", other),
    }
}

#[test]
fn parse_reads_scheme_host_and_port() {
    let uri = TargetUri::parse("https://example.test:8443/path?x=1").unwrap();
    assert_eq!(uri.scheme.as_deref(), Some("https"));
    assert_eq!(uri.host.as_deref(), Some("example.test"));
    assert_eq!(uri.port, Some(8443));
    assert!(uri.is_https());
}

#[test]
fn parse_reads_a_uri_without_port() {
    let uri = example_uri();
    assert_eq!(uri.scheme.as_deref(), Some("https"));
    assert_eq!(uri.host.as_deref(), Some("example.test"));
    assert_eq!(uri.port, None);
}

#[test]
fn parse_reads_an_upper_case_scheme_as_the_secure_one() {
    let uri = TargetUri::parse("HTTPS://example.test").unwrap();
    assert!(uri.is_https());
}

#[test]
fn parse_reads_a_path_as_a_uri_without_scheme_and_host() {
    let uri = TargetUri::parse("/hello/world").unwrap();
    assert_eq!(uri.scheme, None);
    assert_eq!(uri.host, None);
    assert!(!uri.is_https());
}

#[test]
fn parse_turns_down_what_is_no_uri() {
    let parsed = TargetUri::parse("https://exa mple.test");
    assert_eq!(parsed, Err(MalformedUri));
    assert_eq!(MalformedUri.kind(), ErrorKind::InvalidInput);
    assert!(TargetUri::parse("").is_err());
}

#[test]
fn plain_http_is_rejected_without_any_step() {
    let (connector, _handle) = HttpsConnectorWithSni::new(None);
    let uri = TargetUri::parse("http://example.test").unwrap();
    let step = connector.call(uri, None);
    assert_eq!(step, ConnectStep::Done(Err(ConnectError::NotHttps)));
    assert_eq!(ConnectError::NotHttps.kind(), ErrorKind::InvalidInput);
}

#[test]
fn plain_http_is_rejected_even_for_a_literal_address() {
    let (connector, _handle) = HttpsConnectorWithSni::new(Some("sni.test".to_string()));
    let uri = TargetUri::parse("http://203.0.113.5").unwrap();
    assert_eq!(
        connector.call(uri, Some(api_ip())),
        ConnectStep::Done(Err(ConnectError::NotHttps))
    );
}

#[test]
fn a_uri_without_scheme_is_rejected() {
    let (connector, _handle) = HttpsConnectorWithSni::new(None);
    let uri = TargetUri { scheme: None, host: Some("example.test".to_string()), port: None };
    assert_eq!(connector.call(uri, None), ConnectStep::Done(Err(ConnectError::NotHttps)));
}

#[test]
fn a_uri_without_host_is_rejected() {
    let (connector, _handle) = HttpsConnectorWithSni::new(Some("sni.test".to_string()));
    let uri = TargetUri { scheme: Some("https".to_string()), host: None, port: Some(443) };
    assert_eq!(connector.call(uri, None), ConnectStep::Done(Err(ConnectError::MissingHost)));
    assert_eq!(ConnectError::MissingHost.kind(), ErrorKind::InvalidInput);
}

#[test]
fn direct_connection_goes_to_the_resolved_address_with_the_hosts_name() {
    let (mut connector, _handle) = HttpsConnectorWithSni::new(None);
    let step = connector.call(example_uri(), None);
    let pending = match step {
        ConnectStep::Lookup(pending) => pending,
        other => panic!("expected a lookup, got {:?}", other),
    };
    assert_eq!(
        pending,
        PendingLookup {
            hostname: "example.test".to_string(),
            host: "example.test".to_string(),
            port: 443,
        }
    );
    let attempt = attempt_of(connector.resolved(pending, Some(vec![api_ip()])));
    assert_eq!(
        attempt.plan,
        AttemptPlan::Direct { addr: api_addr(), hostname: "example.test".to_string() }
    );
    assert_eq!(attempt.plan.tcp_target(), api_addr());
    assert_eq!(attempt.plan.forward_target(), None);
    assert_eq!(attempt.plan.hostname(), "example.test");
    assert_eq!(CONNECT_TIMEOUT_SECS, 5);
    assert_eq!(
        connector.attempt_finished(attempt, AttemptOutcome::Connected),
        ConnectStep::Done(Ok(0))
    );
    assert!(!connector.is_closed(0));
}

#[test]
fn proxied_connection_goes_to_the_proxy_and_forwards_to_the_resolved_address() {
    let (mut connector, handle) = HttpsConnectorWithSni::new(None);
    let outcome = connector.handle_request(handle.set_proxy(proxied("aes-256-gcm")));
    assert_eq!(outcome.rejected, None);
    let pending = match connector.call(example_uri(), None) {
        ConnectStep::Lookup(pending) => pending,
        other => panic!("expected a lookup, got {:?}", other),
    };
    let attempt = attempt_of(connector.resolved(pending, Some(vec![api_ip()])));
    assert_eq!(
        attempt.plan,
        AttemptPlan::Proxied {
            proxy: shadowsocks("aes-256-gcm"),
            addr: api_addr(),
            hostname: "example.test".to_string(),
        }
    );
    assert_eq!(attempt.plan.tcp_target(), proxy_addr());
    assert_eq!(attempt.plan.forward_target(), Some(api_addr()));
    assert_eq!(attempt.plan.addr(), api_addr());
    assert_eq!(attempt.plan.hostname(), "example.test");
}

#[test]
fn the_first_address_of_a_lookup_is_used_with_the_uris_port() {
    let (connector, _handle) = HttpsConnectorWithSni::new(None);
    let uri = TargetUri::parse("https://example.test:8443").unwrap();
    let pending = match connector.call(uri, None) {
        ConnectStep::Lookup(pending) => pending,
        other => panic!("expected a lookup, got {:?}", other),
    };
    assert_eq!(pending.port, 8443);
    let second = IpAddress::V6(0x2001, 0xdb8, 0, 0, 0, 0, 0, 1);
    let attempt = attempt_of(connector.resolved(pending, Some(vec![api_ip(), second])));
    assert_eq!(attempt.plan.tcp_target(), SocketAddress::new(api_ip(), 8443));
}

#[test]
fn a_lookup_that_fails_or_finds_nothing_is_a_dns_failure() {
    let (connector, _handle) = HttpsConnectorWithSni::new(None);
    let pending = || PendingLookup {
        hostname: "example.test".to_string(),
        host: "example.test".to_string(),
        port: 443,
    };
    assert_eq!(connector.resolved(pending(), None), ConnectStep::Done(Err(ConnectError::Dns)));
    assert_eq!(
        connector.resolved(pending(), Some(vec![])),
        ConnectStep::Done(Err(ConnectError::Dns))
    );
    assert_eq!(ConnectError::Dns.kind(), ErrorKind::Dns);
}

#[test]
fn a_literal_address_needs_no_lookup() {
    let (connector, _handle) = HttpsConnectorWithSni::new(None);
    let uri = TargetUri::parse("https://203.0.113.5").unwrap();
    let attempt = attempt_of(connector.call(uri, Some(api_ip())));
    assert_eq!(attempt.generation, 0);
    assert_eq!(
        attempt.plan,
        AttemptPlan::Direct { addr: api_addr(), hostname: "203.0.113.5".to_string() }
    );
}

#[test]
fn the_configured_name_replaces_the_host_in_the_handshake() {
    let (connector, _handle) = HttpsConnectorWithSni::new(Some("api.example".to_string()));
    let pending = match connector.call(example_uri(), None) {
        ConnectStep::Lookup(pending) => pending,
        other => panic!("expected a lookup, got {:?}", other),
    };
    assert_eq!(pending.hostname, "api.example");
    assert_eq!(pending.host, "example.test");
}

#[test]
fn resolve_address_uses_the_default_port() {
    assert_eq!(DEFAULT_PORT, 443);
    assert_eq!(
        HttpsConnectorWithSni::resolve_address(example_uri(), None),
        Ok(Resolution::Lookup { host: "example.test".to_string(), port: 443 })
    );
    assert_eq!(
        HttpsConnectorWithSni::resolve_address(example_uri(), Some(api_ip())),
        Ok(Resolution::Address(api_addr()))
    );
    let no_host = TargetUri { scheme: Some("https".to_string()), host: None, port: None };
    assert_eq!(
        HttpsConnectorWithSni::resolve_address(no_host, Some(api_ip())),
        Err(ConnectError::MissingHost)
    );
}

#[test]
fn set_proxy_during_an_attempt_abandons_it_and_retries_in_the_new_mode() {
    let (mut connector, handle) = HttpsConnectorWithSni::new(None);
    let old_attempt = connector.begin(api_addr(), "example.test".to_string());
    assert_eq!(
        old_attempt.plan,
        AttemptPlan::Direct { addr: api_addr(), hostname: "example.test".to_string() }
    );
    connector.handle_request(handle.set_proxy(proxied("aes-256-gcm")));
    assert_eq!(connector.generation(), 1);

    let retry = attempt_of(connector.attempt_finished(old_attempt, AttemptOutcome::Cancelled));
    assert_eq!(retry.generation, 1);
    assert_eq!(
        retry.plan,
        AttemptPlan::Proxied {
            proxy: shadowsocks("aes-256-gcm"),
            addr: api_addr(),
            hostname: "example.test".to_string(),
        }
    );
    assert_eq!(
        connector.attempt_finished(retry, AttemptOutcome::Connected),
        ConnectStep::Done(Ok(0))
    );
    assert!(!connector.is_closed(0));
}

#[test]
fn an_attempt_that_connects_after_a_mode_change_is_not_handed_out() {
    let (mut connector, handle) = HttpsConnectorWithSni::new(None);
    let stale = connector.begin(api_addr(), "example.test".to_string());
    connector.handle_request(handle.set_proxy(proxied("aes-256-gcm")));
    let retry = attempt_of(connector.attempt_finished(stale, AttemptOutcome::Connected));
    assert_eq!(retry.plan.tcp_target(), proxy_addr());
    assert!(connector.is_closed(0));
}

#[test]
fn an_attempt_that_fails_after_a_mode_change_is_retried() {
    let (mut connector, handle) = HttpsConnectorWithSni::new(None);
    let stale = connector.begin(api_addr(), "example.test".to_string());
    connector.handle_request(handle.reset());
    let retry = attempt_of(
        connector.attempt_finished(stale, AttemptOutcome::Failed(AttemptFailure::Tls)),
    );
    assert_eq!(retry.generation, 1);
    assert_eq!(retry.plan.tcp_target(), api_addr());
}

#[test]
fn a_cancelled_attempt_is_begun_again() {
    let (mut connector, _handle) = HttpsConnectorWithSni::new(None);
    let attempt = connector.begin(api_addr(), "example.test".to_string());
    let again = attempt_of(connector.attempt_finished(attempt, AttemptOutcome::Cancelled));
    assert_eq!(again, connector.begin(api_addr(), "example.test".to_string()));
}

#[test]
fn every_stream_is_closed_after_a_reset() {
    let (mut connector, handle) = HttpsConnectorWithSni::new(None);
    for expected in 0..3u64 {
        let attempt = connector.begin(api_addr(), "example.test".to_string());
        assert_eq!(
            connector.attempt_finished(attempt, AttemptOutcome::Connected),
            ConnectStep::Done(Ok(expected))
        );
    }
    connector.stream_closed(1);
    assert!(!connector.is_closed(0));
    assert!(connector.is_closed(1));
    assert!(!connector.is_closed(2));

    let outcome = connector.handle_request(handle.reset());
    assert_eq!(outcome.closed, vec![0, 2]);
    assert_eq!(outcome.rejected, None);
    for id in 0..5u64 {
        assert!(connector.is_closed(id));
    }
    assert_eq!(connector.proxy_config(), &InnerProxyConfig::Direct);
}

#[test]
fn every_stream_is_closed_after_set_proxy() {
    let (mut connector, handle) = HttpsConnectorWithSni::new(None);
    let attempt = connector.begin(api_addr(), "example.test".to_string());
    connector.attempt_finished(attempt, AttemptOutcome::Connected);
    let outcome = connector.handle_request(handle.set_proxy(proxied("chacha20-ietf-poly1305")));
    assert_eq!(outcome.closed, vec![0]);
    assert!(connector.is_closed(0));
    assert_eq!(
        connector.proxy_config(),
        &InnerProxyConfig::Proxied(shadowsocks("chacha20-ietf-poly1305"))
    );
}

#[test]
fn handles_are_never_given_out_twice() {
    let (mut connector, handle) = HttpsConnectorWithSni::new(None);
    let attempt = connector.begin(api_addr(), "example.test".to_string());
    assert_eq!(
        connector.attempt_finished(attempt, AttemptOutcome::Connected),
        ConnectStep::Done(Ok(0))
    );
    connector.handle_request(handle.reset());
    let attempt = connector.begin(api_addr(), "example.test".to_string());
    assert_eq!(
        connector.attempt_finished(attempt, AttemptOutcome::Connected),
        ConnectStep::Done(Ok(1))
    );
    assert!(connector.is_closed(0));
    assert!(!connector.is_closed(1));
    assert!(connector.has_room());
}

#[test]
fn an_unknown_cipher_is_turned_down_and_the_mode_stays() {
    let (mut connector, handle) = HttpsConnectorWithSni::new(None);
    connector.handle_request(handle.set_proxy(proxied("aes-256-gcm")));
    let attempt = connector.begin(api_addr(), "example.test".to_string());
    connector.attempt_finished(attempt, AttemptOutcome::Connected);

    let outcome = connector.handle_request(handle.set_proxy(proxied("rot13")));
    assert_eq!(outcome.rejected, Some(ProxyConfigError::InvalidCipher("rot13".to_string())));
    assert_eq!(outcome.rejected.unwrap().kind(), ErrorKind::ConfigParse);
    assert_eq!(outcome.closed, vec![0]);
    assert_eq!(connector.generation(), 2);
    assert_eq!(
        connector.proxy_config(),
        &InnerProxyConfig::Proxied(shadowsocks("aes-256-gcm"))
    );
}

#[test]
fn set_proxy_to_direct_goes_back_to_direct_connections() {
    let (mut connector, handle) = HttpsConnectorWithSni::new(None);
    connector.handle_request(handle.set_proxy(proxied("aes-256-gcm")));
    connector.handle_request(handle.set_proxy(ProxyConfig::Direct));
    assert_eq!(connector.proxy_config(), &InnerProxyConfig::Direct);
}

#[test]
fn try_from_asks_the_proxy_runtime_about_the_cipher() {
    assert_eq!(InnerProxyConfig::try_from(ProxyConfig::Direct), Ok(InnerProxyConfig::Direct));
    assert_eq!(
        InnerProxyConfig::try_from(proxied("aes-256-gcm")),
        Ok(InnerProxyConfig::Proxied(shadowsocks("aes-256-gcm")))
    );
    assert_eq!(
        InnerProxyConfig::try_from(proxied("AES-128-GCM")),
        Ok(InnerProxyConfig::Proxied(shadowsocks("AES-128-GCM")))
    );
    assert_eq!(
        InnerProxyConfig::try_from(proxied("aes-256-gcm ")),
        Err(ProxyConfigError::InvalidCipher("aes-256-gcm ".to_string()))
    );
    assert_eq!(
        InnerProxyConfig::try_from(proxied("no such cipher")),
        Err(ProxyConfigError::InvalidCipher("no such cipher".to_string()))
    );
}

#[test]
fn from_checked_goes_by_the_answer_it_is_given() {
    assert_eq!(
        InnerProxyConfig::from_checked(proxied("anything"), true),
        Ok(InnerProxyConfig::Proxied(shadowsocks("anything")))
    );
    assert_eq!(
        InnerProxyConfig::from_checked(proxied("aes-256-gcm"), false),
        Err(ProxyConfigError::InvalidCipher("aes-256-gcm".to_string()))
    );
    assert_eq!(
        InnerProxyConfig::from_checked(ProxyConfig::Direct, false),
        Ok(InnerProxyConfig::Direct)
    );
}

#[test]
fn apply_request_goes_by_the_answer_it_is_given() {
    let (mut connector, _handle) = HttpsConnectorWithSni::new(None);
    let outcome =
        connector.apply_request(HttpsConnectorRequest::SetProxy(proxied("aes-256-gcm")), false);
    assert_eq!(
        outcome.rejected,
        Some(ProxyConfigError::InvalidCipher("aes-256-gcm".to_string()))
    );
    assert_eq!(connector.proxy_config(), &InnerProxyConfig::Direct);
    assert_eq!(connector.generation(), 1);
}

#[test]
fn each_failure_of_an_attempt_has_its_error() {
    let cases = [
        (AttemptFailure::TimedOut, ConnectError::Timeout, ErrorKind::Timeout),
        (AttemptFailure::Socket, ConnectError::Io, ErrorKind::Io),
        (AttemptFailure::ProxyHandshake, ConnectError::ProxyHandshake, ErrorKind::ProxyHandshake),
        (AttemptFailure::Tls, ConnectError::Tls, ErrorKind::Tls),
    ];
    for (failure, error, kind) in cases {
        let (mut connector, _handle) = HttpsConnectorWithSni::new(None);
        let attempt = connector.begin(api_addr(), "example.test".to_string());
        assert_eq!(
            connector.attempt_finished(attempt, AttemptOutcome::Failed(failure)),
            ConnectStep::Done(Err(error))
        );
        assert_eq!(failure.error(), error);
        assert_eq!(error.kind(), kind);
        assert!(connector.is_closed(0));
    }
}

#[test]
fn a_socket_that_is_not_open_in_time_is_a_timeout() {
    assert_eq!(HttpsConnectorWithSni::open_socket(SocketOutcome::Connected), Ok(()));
    assert_eq!(
        HttpsConnectorWithSni::open_socket(SocketOutcome::Elapsed),
        Err(AttemptFailure::TimedOut)
    );
    assert_eq!(
        HttpsConnectorWithSni::open_socket(SocketOutcome::Failed),
        Err(AttemptFailure::Socket)
    );
}

#[test]
fn requests_are_what_the_handle_was_asked_for() {
    let (_connector, handle) = HttpsConnectorWithSni::new(None);
    assert_eq!(handle.reset(), HttpsConnectorRequest::Reset);
    assert_eq!(
        handle.set_proxy(proxied("aes-256-gcm")),
        HttpsConnectorRequest::SetProxy(proxied("aes-256-gcm"))
    );
}
