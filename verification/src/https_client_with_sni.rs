//! The connector: which connection to attempt, when to give an attempt up,
//! and which streams to close when the connection mode changes.
//!
//! The connector never touches the network. It is told what happened and
//! answers with what to do next: look a name up, attempt a connection, or
//! hand the outcome to the caller.

use crate::abortable_stream::{RegistryView, StreamRegistry};
use crate::cipher::{cipher_is_recognized, cipher_recognized};
use crate::error::ErrorKind;
use crate::net::{IpAddress, SocketAddress};
use crate::proxy::{ProxyConfig, ProxyConfigSettings, ShadowsocksProxySettings};
use crate::uri::TargetUri;
use vstd::prelude::*;

verus! {

/// How long opening a socket may take, in seconds.
pub const CONNECT_TIMEOUT_SECS: u64 = 5;

/// The port to connect to where the URI names none.
pub const DEFAULT_PORT: u16 = 443;

/// Why no stream could be had.
#[derive(Clone, Copy, Debug, PartialEq, Eq, Structural)]
pub enum ConnectError {
    /// The URI's scheme is not the secure one.
    NotHttps,
    /// The URI names no host.
    MissingHost,
    /// Name resolution failed or gave no address.
    Dns,
    /// Opening the socket took longer than allowed.
    Timeout,
    /// The socket could not be opened.
    Io,
    /// The tunnel through the proxy could not be set up.
    ProxyHandshake,
    /// The security handshake failed.
    Tls,
}

impl ConnectError {
    /// The kind of this failure.
    pub open spec fn spec_kind(self) -> ErrorKind {
        match self {
            ConnectError::NotHttps => ErrorKind::InvalidInput,
            ConnectError::MissingHost => ErrorKind::InvalidInput,
            ConnectError::Dns => ErrorKind::Dns,
            ConnectError::Timeout => ErrorKind::Timeout,
            ConnectError::Io => ErrorKind::Io,
            ConnectError::ProxyHandshake => ErrorKind::ProxyHandshake,
            ConnectError::Tls => ErrorKind::Tls,
        }
    }

    /// The kind of this failure.
    pub fn kind(&self) -> (kind: ErrorKind)
        ensures
            kind == self.spec_kind(),
    {
        match self {
            ConnectError::NotHttps => ErrorKind::InvalidInput,
            ConnectError::MissingHost => ErrorKind::InvalidInput,
            ConnectError::Dns => ErrorKind::Dns,
            ConnectError::Timeout => ErrorKind::Timeout,
            ConnectError::Io => ErrorKind::Io,
            ConnectError::ProxyHandshake => ErrorKind::ProxyHandshake,
            ConnectError::Tls => ErrorKind::Tls,
        }
    }
}

/// A request to the task that owns the connector's state.
#[derive(Debug, PartialEq, Eq)]
pub enum HttpsConnectorRequest {
    /// Close every open stream; keep the connection mode.
    Reset,
    /// Switch to this connection mode, then close every open stream.
    SetProxy(ProxyConfig),
}

/// The side of the control channel that issues requests.
#[derive(Clone, Copy, Debug, PartialEq, Eq, Structural)]
pub struct HttpsConnectorWithSniHandle {}

impl HttpsConnectorWithSniHandle {
    /// The request that stops all streams produced by the connector.
    pub fn reset(&self) -> (request: HttpsConnectorRequest)
        ensures
            request == HttpsConnectorRequest::Reset,
    {
        HttpsConnectorRequest::Reset
    }

    /// The request that makes the connector use `proxy` from now on.
    pub fn set_proxy(&self, proxy: ProxyConfig) -> (request: HttpsConnectorRequest)
        ensures
            request == HttpsConnectorRequest::SetProxy(proxy),
    {
        HttpsConnectorRequest::SetProxy(proxy)
    }
}

/// Why a requested connection mode was turned down.
#[derive(Debug, PartialEq, Eq)]
pub enum ProxyConfigError {
    /// The proxy runtime knows no cipher of this name.
    InvalidCipher(String),
}

impl ProxyConfigError {
    /// Settings that are turned down are a configuration that does not parse.
    pub fn kind(&self) -> (kind: ErrorKind)
        ensures
            kind == ErrorKind::ConfigParse,
    {
        ErrorKind::ConfigParse
    }
}

/// A connection mode that the connector has accepted.
#[derive(Debug, PartialEq, Eq)]
pub enum InnerProxyConfig {
    /// Connect directly to the target.
    Direct,
    /// Connect to the destination via a proxy.
    Proxied(ShadowsocksProxySettings),
}

impl Clone for InnerProxyConfig {
    fn clone(&self) -> (copy: Self)
        ensures
            copy == *self,
    {
        match self {
            InnerProxyConfig::Direct => InnerProxyConfig::Direct,
            InnerProxyConfig::Proxied(settings) => InnerProxyConfig::Proxied(settings.clone()),
        }
    }
}

/// Whether the proxy runtime knows the cipher that `config` names. A direct
/// connection names none and passes.
pub open spec fn names_known_cipher(config: ProxyConfig) -> bool {
    match config {
        ProxyConfig::Direct => true,
        ProxyConfig::Proxied(ProxyConfigSettings::Shadowsocks(ss)) => cipher_recognized(
            ss.cipher@,
        ),
    }
}

impl InnerProxyConfig {
    /// The mode that `config` is accepted as, given whether its cipher is
    /// known; an unknown cipher is an error that names it.
    pub open spec fn checked(config: ProxyConfig, cipher_known: bool) -> Result<
        InnerProxyConfig,
        ProxyConfigError,
    > {
        match config {
            ProxyConfig::Direct => Ok(InnerProxyConfig::Direct),
            ProxyConfig::Proxied(ProxyConfigSettings::Shadowsocks(ss)) => if cipher_known {
                Ok(InnerProxyConfig::Proxied(ss))
            } else {
                Err(ProxyConfigError::InvalidCipher(ss.cipher))
            },
        }
    }

    /// The mode that `config` is accepted as.
    pub open spec fn spec_try_from(config: ProxyConfig) -> Result<
        InnerProxyConfig,
        ProxyConfigError,
    > {
        Self::checked(config, names_known_cipher(config))
    }

    /// A proxied mode names a cipher that the proxy runtime knows.
    pub open spec fn recognized(self) -> bool {
        match self {
            InnerProxyConfig::Direct => true,
            InnerProxyConfig::Proxied(ss) => cipher_recognized(ss.cipher@),
        }
    }

    /// Accepts `config`, or turns it down, given whether its cipher is known.
    pub fn from_checked(config: ProxyConfig, cipher_known: bool) -> (accepted: Result<
        InnerProxyConfig,
        ProxyConfigError,
    >)
        ensures
            accepted == Self::checked(config, cipher_known),
    {
        match config {
            ProxyConfig::Direct => Ok(InnerProxyConfig::Direct),
            ProxyConfig::Proxied(ProxyConfigSettings::Shadowsocks(ss)) => {
                if cipher_known {
                    Ok(InnerProxyConfig::Proxied(ss))
                } else {
                    Err(ProxyConfigError::InvalidCipher(ss.cipher))
                }
            },
        }
    }

    /// Accepts `config` if the proxy runtime knows its cipher.
    pub fn try_from(config: ProxyConfig) -> (accepted: Result<InnerProxyConfig, ProxyConfigError>)
        ensures
            accepted == Self::spec_try_from(config),
            accepted matches Ok(mode) ==> mode.recognized(),
    {
        let cipher_known = knows_cipher_of(&config);
        Self::from_checked(config, cipher_known)
    }
}

/// Whether the proxy runtime knows the cipher that `config` names.
fn knows_cipher_of(config: &ProxyConfig) -> (known: bool)
    ensures
        known == names_known_cipher(*config),
{
    match config {
        ProxyConfig::Direct => true,
        ProxyConfig::Proxied(ProxyConfigSettings::Shadowsocks(ss)) => cipher_is_recognized(
            ss.cipher.as_str(),
        ),
    }
}

/// The steps of one connection attempt.
#[derive(Debug, PartialEq, Eq)]
pub enum AttemptPlan {
    /// Open a socket to `addr`, then do the security handshake, naming
    /// `hostname`.
    Direct { addr: SocketAddress, hostname: String },
    /// Open a socket to the proxy, have the proxy forward to `addr`, then do
    /// the security handshake through the tunnel, naming `hostname`.
    Proxied { proxy: ShadowsocksProxySettings, addr: SocketAddress, hostname: String },
}

impl AttemptPlan {
    /// The plan for reaching `addr` in the mode `config`.
    pub open spec fn for_mode(
        config: InnerProxyConfig,
        addr: SocketAddress,
        hostname: String,
    ) -> AttemptPlan {
        match config {
            InnerProxyConfig::Direct => AttemptPlan::Direct { addr, hostname },
            InnerProxyConfig::Proxied(proxy) => AttemptPlan::Proxied { proxy, addr, hostname },
        }
    }

    /// The address that the socket is opened to.
    pub open spec fn spec_tcp_target(self) -> SocketAddress {
        match self {
            AttemptPlan::Direct { addr, .. } => addr,
            AttemptPlan::Proxied { proxy, .. } => proxy.peer,
        }
    }

    /// The address of the API that the stream ends at.
    pub open spec fn spec_addr(self) -> SocketAddress {
        match self {
            AttemptPlan::Direct { addr, .. } => addr,
            AttemptPlan::Proxied { addr, .. } => addr,
        }
    }

    /// The name given in the security handshake.
    pub open spec fn spec_hostname(self) -> String {
        match self {
            AttemptPlan::Direct { hostname, .. } => hostname,
            AttemptPlan::Proxied { hostname, .. } => hostname,
        }
    }

    /// The address that the socket is opened to.
    pub fn tcp_target(&self) -> (target: SocketAddress)
        ensures
            target == self.spec_tcp_target(),
    {
        match self {
            AttemptPlan::Direct { addr, .. } => *addr,
            AttemptPlan::Proxied { proxy, .. } => proxy.peer,
        }
    }

    /// The address of the API that the stream ends at.
    pub fn addr(&self) -> (addr: SocketAddress)
        ensures
            addr == self.spec_addr(),
    {
        match self {
            AttemptPlan::Direct { addr, .. } => *addr,
            AttemptPlan::Proxied { addr, .. } => *addr,
        }
    }

    /// The address that the proxy is asked to forward to, if there is a proxy.
    pub fn forward_target(&self) -> (target: Option<SocketAddress>)
        ensures
            target == match *self {
                AttemptPlan::Direct { .. } => None,
                AttemptPlan::Proxied { addr, .. } => Some(addr),
            },
    {
        match self {
            AttemptPlan::Direct { .. } => None,
            AttemptPlan::Proxied { addr, .. } => Some(*addr),
        }
    }

    /// The name given in the security handshake.
    pub fn hostname(&self) -> (hostname: &String)
        ensures
            *hostname == self.spec_hostname(),
    {
        match self {
            AttemptPlan::Direct { hostname, .. } => hostname,
            AttemptPlan::Proxied { hostname, .. } => hostname,
        }
    }
}

/// A connection attempt that is under way.
#[derive(Debug, PartialEq, Eq)]
pub struct Attempt {
    /// How many cancellations the connector had sent when the attempt began.
    pub generation: u64,
    pub plan: AttemptPlan,
}

/// A name to look up before a connection can be attempted.
#[derive(Debug, PartialEq, Eq)]
pub struct PendingLookup {
    /// The name to give in the security handshake.
    pub hostname: String,
    /// The name to resolve.
    pub host: String,
    /// The port to connect to.
    pub port: u16,
}

/// Where the socket is opened to, as far as it is known without a lookup.
#[derive(Debug, PartialEq, Eq)]
pub enum Resolution {
    /// The host is an IP address.
    Address(SocketAddress),
    /// The host is a name that has to be looked up.
    Lookup { host: String, port: u16 },
}

/// What opening a socket came to.
#[derive(Clone, Copy, Debug, PartialEq, Eq, Structural)]
pub enum SocketOutcome {
    Connected,
    /// The time allowed ran out.
    Elapsed,
    /// The connection was refused or failed otherwise.
    Failed,
}

/// The stage at which a connection attempt failed.
#[derive(Clone, Copy, Debug, PartialEq, Eq, Structural)]
pub enum AttemptFailure {
    /// Opening the socket took longer than allowed.
    TimedOut,
    /// The socket could not be opened.
    Socket,
    /// The proxy did not set the tunnel up.
    ProxyHandshake,
    /// The security handshake failed.
    Tls,
}

impl AttemptFailure {
    /// The error that the caller gets.
    pub open spec fn spec_error(self) -> ConnectError {
        match self {
            AttemptFailure::TimedOut => ConnectError::Timeout,
            AttemptFailure::Socket => ConnectError::Io,
            AttemptFailure::ProxyHandshake => ConnectError::ProxyHandshake,
            AttemptFailure::Tls => ConnectError::Tls,
        }
    }

    /// The error that the caller gets.
    pub fn error(&self) -> (error: ConnectError)
        ensures
            error == self.spec_error(),
    {
        match self {
            AttemptFailure::TimedOut => ConnectError::Timeout,
            AttemptFailure::Socket => ConnectError::Io,
            AttemptFailure::ProxyHandshake => ConnectError::ProxyHandshake,
            AttemptFailure::Tls => ConnectError::Tls,
        }
    }
}

/// How a connection attempt ended.
#[derive(Clone, Copy, Debug, PartialEq, Eq, Structural)]
pub enum AttemptOutcome {
    /// The cancellation arrived before the attempt was through.
    Cancelled,
    /// The stream stands.
    Connected,
    Failed(AttemptFailure),
}

/// What the caller of the connector does next.
#[derive(Debug, PartialEq, Eq)]
pub enum ConnectStep {
    /// Resolve the name, then report with `resolved`.
    Lookup(PendingLookup),
    /// Carry the plan out while listening for a cancellation, then report
    /// with `attempt_finished`.
    Attempt(Attempt),
    /// The connection is established and known by this number, or it failed.
    Done(Result<u64, ConnectError>),
}

/// What the owner of the streams does after a request was handled: it tears
/// the listed streams down and wakes every attempt that is under way.
#[derive(Debug, PartialEq, Eq)]
pub struct RequestOutcome {
    /// The numbers of the streams to tear down, oldest first.
    pub closed: Vec<u64>,
    /// Why the requested connection mode was turned down, if it was.
    pub rejected: Option<ProxyConfigError>,
}

/// The count of cancellations after one more. It starts again at zero after
/// the largest number.
pub open spec fn next_generation(generation: u64) -> u64 {
    if generation == u64::MAX {
        0
    } else {
        (generation + 1) as u64
    }
}

/// The state of a connector, as plain values.
pub struct ConnectorView {
    /// The connection mode in force.
    pub config: InnerProxyConfig,
    /// The name to give in security handshakes instead of the URI's host.
    pub sni_hostname: Option<String>,
    /// How many cancellations have been sent.
    pub generation: u64,
    pub registry: RegistryView,
}

impl ConnectorView {
    /// The registry is well formed.
    pub open spec fn wf(self) -> bool {
        self.registry.wf()
    }

    /// The mode in force after `request`, given whether the cipher that the
    /// request names is known: a mode that is turned down leaves the mode in
    /// force as it was.
    pub open spec fn mode_after(
        self,
        request: HttpsConnectorRequest,
        cipher_known: bool,
    ) -> InnerProxyConfig {
        match request {
            HttpsConnectorRequest::Reset => self.config,
            HttpsConnectorRequest::SetProxy(config) => match InnerProxyConfig::checked(
                config,
                cipher_known,
            ) {
                Ok(mode) => mode,
                Err(_) => self.config,
            },
        }
    }

    /// The connector after `request`, given whether the cipher that the
    /// request names is known. Whatever the request, every handle is let go
    /// of and one more cancellation is sent.
    pub open spec fn after_checked_request(
        self,
        request: HttpsConnectorRequest,
        cipher_known: bool,
    ) -> ConnectorView {
        ConnectorView {
            config: self.mode_after(request, cipher_known),
            sni_hostname: self.sni_hostname,
            generation: next_generation(self.generation),
            registry: self.registry.cleared(),
        }
    }

    /// The connector after `request`.
    pub open spec fn after_request(self, request: HttpsConnectorRequest) -> ConnectorView {
        self.after_checked_request(request, request_names_known_cipher(request))
    }

    /// The connector after the requests were handled one after the other.
    pub open spec fn after_requests(self, requests: Seq<HttpsConnectorRequest>) -> ConnectorView
        decreases requests.len(),
    {
        if requests.len() == 0 {
            self
        } else {
            self.after_requests(requests.drop_last()).after_request(requests.last())
        }
    }

    /// The attempt to reach `addr` that begins now.
    pub open spec fn begin(self, addr: SocketAddress, hostname: String) -> Attempt {
        Attempt {
            generation: self.generation,
            plan: AttemptPlan::for_mode(self.config, addr, hostname),
        }
    }

    /// Whether the attempt is given up: it was cancelled, or a cancellation
    /// was sent after it began.
    pub open spec fn abandons(self, attempt: Attempt, outcome: AttemptOutcome) -> bool {
        attempt.generation != self.generation || outcome is Cancelled
    }

    /// What to do once an attempt has ended: one that is given up is begun
    /// again in the mode now in force; otherwise the caller gets the number
    /// of the new stream, or the failure.
    pub open spec fn attempt_finished(self, attempt: Attempt, outcome: AttemptOutcome) -> ConnectStep {
        if self.abandons(attempt, outcome) {
            ConnectStep::Attempt(self.begin(attempt.plan.spec_addr(), attempt.plan.spec_hostname()))
        } else {
            match outcome {
                AttemptOutcome::Failed(failure) => ConnectStep::Done(Err(failure.spec_error())),
                _ => ConnectStep::Done(Ok(self.registry.issued as u64)),
            }
        }
    }

    /// The connector once an attempt has ended: a stream that stands, and was
    /// not given up, is registered.
    pub open spec fn after_attempt(self, attempt: Attempt, outcome: AttemptOutcome) -> ConnectorView {
        if !self.abandons(attempt, outcome) && outcome is Connected {
            ConnectorView {
                config: self.config,
                sni_hostname: self.sni_hostname,
                generation: self.generation,
                registry: self.registry.registered(),
            }
        } else {
            self
        }
    }

    /// The first step of a connection to `uri`, where `literal` is the
    /// address that the host spells, if it spells one.
    pub open spec fn call(self, uri: TargetUri, literal: Option<IpAddress>) -> ConnectStep {
        if !uri@.is_https() {
            ConnectStep::Done(Err(ConnectError::NotHttps))
        } else {
            match spec_resolve_address(uri, literal) {
                Err(error) => ConnectStep::Done(Err(error)),
                Ok(Resolution::Address(addr)) => ConnectStep::Attempt(
                    self.begin(addr, self.handshake_name(uri.host->0)),
                ),
                Ok(Resolution::Lookup { host, port }) => ConnectStep::Lookup(
                    PendingLookup { hostname: self.handshake_name(host), host, port },
                ),
            }
        }
    }

    /// The name to give in the security handshake with `host`.
    pub open spec fn handshake_name(self, host: String) -> String {
        match self.sni_hostname {
            Some(name) => name,
            None => host,
        }
    }

    /// The step after a lookup: an attempt to reach the first address found,
    /// or a failure where the lookup failed or found nothing.
    pub open spec fn resolved(self, pending: PendingLookup, found: Option<Seq<IpAddress>>) -> ConnectStep {
        match found {
            Some(ips) if ips.len() > 0 => ConnectStep::Attempt(
                self.begin(SocketAddress { ip: ips[0], port: pending.port }, pending.hostname),
            ),
            _ => ConnectStep::Done(Err(ConnectError::Dns)),
        }
    }
}

/// Whether the proxy runtime knows the cipher that `request` names.
/// A request that names none passes.
pub open spec fn request_names_known_cipher(request: HttpsConnectorRequest) -> bool {
    match request {
        HttpsConnectorRequest::Reset => true,
        HttpsConnectorRequest::SetProxy(config) => names_known_cipher(config),
    }
}

/// Why a request's connection mode is turned down, if it is.
pub open spec fn rejection(request: HttpsConnectorRequest, cipher_known: bool) -> Option<
    ProxyConfigError,
> {
    match request {
        HttpsConnectorRequest::Reset => None,
        HttpsConnectorRequest::SetProxy(config) => match InnerProxyConfig::checked(
            config,
            cipher_known,
        ) {
            Ok(_) => None,
            Err(error) => Some(error),
        },
    }
}

/// Where the socket for `uri` is opened to: the URI's port, or the default
/// one, at the address that the host spells, or else at a name to look up.
pub open spec fn spec_resolve_address(uri: TargetUri, literal: Option<IpAddress>) -> Result<
    Resolution,
    ConnectError,
> {
    match uri.host {
        None => Err(ConnectError::MissingHost),
        Some(host) => {
            let port = match uri.port {
                Some(port) => port,
                None => DEFAULT_PORT,
            };
            match literal {
                Some(ip) => Ok(Resolution::Address(SocketAddress { ip, port })),
                None => Ok(Resolution::Lookup { host, port }),
            }
        },
    }
}

/// The mutable state that a connector shares with the task that handles its
/// requests.
#[derive(Debug)]
struct HttpsConnectorWithSniInner {
    stream_handles: StreamRegistry,
    proxy_config: InnerProxyConfig,
}

/// A connector for the `https` scheme.
#[derive(Debug)]
pub struct HttpsConnectorWithSni {
    inner: HttpsConnectorWithSniInner,
    sni_hostname: Option<String>,
    abort_generation: u64,
}

impl View for HttpsConnectorWithSni {
    type V = ConnectorView;

    closed spec fn view(&self) -> ConnectorView {
        ConnectorView {
            config: self.inner.proxy_config,
            sni_hostname: self.sni_hostname,
            generation: self.abort_generation,
            registry: self.inner.stream_handles@,
        }
    }
}

impl HttpsConnectorWithSni {
    /// A connector that connects directly and holds no stream, with the
    /// handle that issues its requests.
    pub fn new(sni_hostname: Option<String>) -> (made: (
        HttpsConnectorWithSni,
        HttpsConnectorWithSniHandle,
    ))
        ensures
            made.0@ == (ConnectorView {
                config: InnerProxyConfig::Direct,
                sni_hostname,
                generation: 0,
                registry: RegistryView { handles: Seq::empty(), issued: 0 },
            }),
            made.0@.wf(),
    {
        (
            HttpsConnectorWithSni {
                inner: HttpsConnectorWithSniInner {
                    stream_handles: StreamRegistry::new(),
                    proxy_config: InnerProxyConfig::Direct,
                },
                sni_hostname,
                abort_generation: 0,
            },
            HttpsConnectorWithSniHandle {  },
        )
    }

    /// Handles one request, given whether the cipher that it names is known.
    pub fn apply_request(&mut self, request: HttpsConnectorRequest, cipher_known: bool) -> (outcome:
        RequestOutcome)
        ensures
            final(self)@ == old(self)@.after_checked_request(request, cipher_known),
            outcome.closed@ == old(self)@.registry.open_in_order(),
            outcome.rejected == rejection(request, cipher_known),
            old(self)@.wf(),
            final(self)@.wf(),
    {
        let mut rejected: Option<ProxyConfigError> = None;
        match request {
            HttpsConnectorRequest::Reset => {},
            HttpsConnectorRequest::SetProxy(config) => {
                match InnerProxyConfig::from_checked(config, cipher_known) {
                    Ok(mode) => {
                        self.inner.proxy_config = mode;
                    },
                    Err(error) => {
                        rejected = Some(error);
                    },
                }
            },
        }
        let closed = self.inner.stream_handles.close_all();
        self.abort_generation = if self.abort_generation == u64::MAX {
            0
        } else {
            self.abort_generation + 1
        };
        RequestOutcome { closed, rejected }
    }

    /// Handles one request: a valid connection mode replaces the one in
    /// force, an invalid one is turned down; either way, and for a reset
    /// too, every stream is to be torn down and every attempt woken.
    pub fn handle_request(&mut self, request: HttpsConnectorRequest) -> (outcome: RequestOutcome)
        ensures
            final(self)@ == old(self)@.after_request(request),
            outcome.closed@ == old(self)@.registry.open_in_order(),
            outcome.rejected == rejection(request, request_names_known_cipher(request)),
            old(self)@.wf(),
            final(self)@.wf(),
            old(self)@.config.recognized() ==> final(self)@.config.recognized(),
    {
        let cipher_known = match &request {
            HttpsConnectorRequest::Reset => true,
            HttpsConnectorRequest::SetProxy(config) => knows_cipher_of(config),
        };
        self.apply_request(request, cipher_known)
    }

    /// The connection mode in force.
    pub fn proxy_config(&self) -> (config: &InnerProxyConfig)
        ensures
            *config == self@.config,
    {
        &self.inner.proxy_config
    }

    /// How many cancellations have been sent.
    pub fn generation(&self) -> (generation: u64)
        ensures
            generation == self@.generation,
    {
        self.abort_generation
    }

    /// Whether the stream `id` is closed.
    pub fn is_closed(&self, id: u64) -> (closed: bool)
        ensures
            closed == self@.registry.is_closed(id),
    {
        self.inner.stream_handles.is_closed(id)
    }

    /// Whether a stream that is established now can get a handle.
    pub fn has_room(&self) -> (room: bool)
        ensures
            room == (self@.registry.issued < u64::MAX),
    {
        self.inner.stream_handles.has_room()
    }

    /// Records that the stream `id` has ended by itself.
    pub fn stream_closed(&mut self, id: u64)
        ensures
            old(self)@.wf(),
            final(self)@ == (ConnectorView {
                config: old(self)@.config,
                sni_hostname: old(self)@.sni_hostname,
                generation: old(self)@.generation,
                registry: old(self)@.registry.closed(id),
            }),
            final(self)@.wf(),
    {
        self.inner.stream_handles.close(id);
    }

    /// What opening a socket came to, as the stage of an attempt.
    pub fn open_socket(outcome: SocketOutcome) -> (opened: Result<(), AttemptFailure>)
        ensures
            opened == match outcome {
                SocketOutcome::Connected => Ok::<(), AttemptFailure>(()),
                SocketOutcome::Elapsed => Err(AttemptFailure::TimedOut),
                SocketOutcome::Failed => Err(AttemptFailure::Socket),
            },
    {
        match outcome {
            SocketOutcome::Connected => Ok(()),
            SocketOutcome::Elapsed => Err(AttemptFailure::TimedOut),
            SocketOutcome::Failed => Err(AttemptFailure::Socket),
        }
    }

    /// Where the socket for `uri` is opened to, where `literal` is the
    /// address that the host spells, if it spells one.
    pub fn resolve_address(uri: TargetUri, literal: Option<IpAddress>) -> (resolution: Result<
        Resolution,
        ConnectError,
    >)
        ensures
            resolution == spec_resolve_address(uri, literal),
    {
        match uri.host {
            None => Err(ConnectError::MissingHost),
            Some(host) => {
                let port = match uri.port {
                    Some(port) => port,
                    None => DEFAULT_PORT,
                };
                match literal {
                    Some(ip) => Ok(Resolution::Address(SocketAddress { ip, port })),
                    None => Ok(Resolution::Lookup { host, port }),
                }
            },
        }
    }

    /// Begins an attempt to reach `addr` in the mode in force.
    pub fn begin(&self, addr: SocketAddress, hostname: String) -> (attempt: Attempt)
        ensures
            attempt == self@.begin(addr, hostname),
    {
        let plan = match &self.inner.proxy_config {
            InnerProxyConfig::Direct => AttemptPlan::Direct { addr, hostname },
            InnerProxyConfig::Proxied(proxy) => AttemptPlan::Proxied {
                proxy: proxy.clone(),
                addr,
                hostname,
            },
        };
        Attempt { generation: self.abort_generation, plan }
    }

    /// The name to give in the security handshake with `host`.
    fn handshake_name(&self, host: &String) -> (name: String)
        ensures
            name == self@.handshake_name(*host),
    {
        match &self.sni_hostname {
            Some(name) => name.clone(),
            None => host.clone(),
        }
    }

    /// The first step of a connection to `uri`, where `literal` is the
    /// address that the host spells, if it spells one.
    ///
    /// A URI whose scheme is not the secure one, or that names no host, is
    /// turned down at once: nothing is looked up and nothing attempted.
    pub fn call(&self, uri: TargetUri, literal: Option<IpAddress>) -> (step: ConnectStep)
        ensures
            step == self@.call(uri, literal),
    {
        if !uri.is_https() {
            return ConnectStep::Done(Err(ConnectError::NotHttps));
        }
        let hostname = match &uri.host {
            Some(host) => self.handshake_name(host),
            None => {
                return ConnectStep::Done(Err(ConnectError::MissingHost));
            },
        };
        match Self::resolve_address(uri, literal) {
            Err(error) => ConnectStep::Done(Err(error)),
            Ok(Resolution::Address(addr)) => ConnectStep::Attempt(self.begin(addr, hostname)),
            Ok(Resolution::Lookup { host, port }) => ConnectStep::Lookup(
                PendingLookup { hostname, host, port },
            ),
        }
    }

    /// The step after a lookup, where `found` holds the addresses that the
    /// lookup gave, or `None` where it failed.
    pub fn resolved(&self, pending: PendingLookup, found: Option<Vec<IpAddress>>) -> (step:
        ConnectStep)
        ensures
            step == self@.resolved(
                pending,
                match found {
                    Some(ips) => Some(ips@),
                    None => None,
                },
            ),
    {
        match found {
            Some(ips) => {
                if ips.len() > 0 {
                    let addr = SocketAddress { ip: ips[0], port: pending.port };
                    ConnectStep::Attempt(self.begin(addr, pending.hostname))
                } else {
                    ConnectStep::Done(Err(ConnectError::Dns))
                }
            },
            None => ConnectStep::Done(Err(ConnectError::Dns)),
        }
    }

    /// What to do once an attempt has ended.
    ///
    /// An attempt that was cancelled, or that began before the last
    /// cancellation was sent, is given up and begun again in the mode now in
    /// force. Otherwise a stream that stands is registered and its number
    /// returned, and a failure is returned as it is.
    pub fn attempt_finished(&mut self, attempt: Attempt, outcome: AttemptOutcome) -> (step:
        ConnectStep)
        requires
            old(self)@.registry.issued < u64::MAX,
        ensures
            step == old(self)@.attempt_finished(attempt, outcome),
            final(self)@ == old(self)@.after_attempt(attempt, outcome),
            old(self)@.wf(),
            final(self)@.wf(),
    {
        proof {
            use_type_invariant(&self.inner.stream_handles);
        }
        let cancelled = match outcome {
            AttemptOutcome::Cancelled => true,
            _ => false,
        };
        if cancelled || attempt.generation != self.abort_generation {
            let addr = attempt.plan.addr();
            let hostname = match attempt.plan {
                AttemptPlan::Direct { hostname, .. } => hostname,
                AttemptPlan::Proxied { hostname, .. } => hostname,
            };
            return ConnectStep::Attempt(self.begin(addr, hostname));
        }
        match outcome {
            AttemptOutcome::Failed(failure) => ConnectStep::Done(Err(failure.error())),
            _ => {
                let id = self.inner.stream_handles.register();
                ConnectStep::Done(Ok(id))
            },
        }
    }
}

/// After a request, whichever it is, every stream that the connector has
/// ever handed out is closed.
pub proof fn lemma_request_closes_every_stream(
    connector: ConnectorView,
    request: HttpsConnectorRequest,
    id: u64,
)
    ensures
        connector.after_request(request).registry.is_closed(id),
        connector.after_request(request).registry.open_ids() == Set::<u64>::empty(),
        connector.after_request(request).registry.issued == connector.registry.issued,
{
    crate::abortable_stream::lemma_cleared_closes_all(connector.registry, id);
}

/// A valid connection mode that is set while an attempt is under way makes
/// the connector give that attempt up, however it ends, and begin another
/// in the new mode; when that one connects, its stream is handed out and is
/// the only open one.
pub proof fn lemma_set_proxy_restarts_attempt(
    connector: ConnectorView,
    addr: SocketAddress,
    hostname: String,
    config: ProxyConfig,
    outcome: AttemptOutcome,
)
    requires
        connector.wf(),
        connector.registry.issued < u64::MAX,
    ensures
        InnerProxyConfig::spec_try_from(config) matches Ok(mode) ==> ({
            let attempt = connector.begin(addr, hostname);
            let switched = connector.after_request(HttpsConnectorRequest::SetProxy(config));
            let again = switched.begin(addr, hostname);
            let id = switched.registry.issued as u64;
            &&& switched.config == mode
            &&& switched.attempt_finished(attempt, outcome) == ConnectStep::Attempt(again)
            &&& switched.after_attempt(attempt, outcome) == switched
            &&& again.plan == AttemptPlan::for_mode(mode, addr, hostname)
            &&& switched.attempt_finished(again, AttemptOutcome::Connected) == ConnectStep::Done(
                Ok(id),
            )
            &&& switched.after_attempt(again, AttemptOutcome::Connected).registry.open_ids()
                == Set::<u64>::empty().insert(id)
        }),
{
    let switched = connector.after_request(HttpsConnectorRequest::SetProxy(config));
    crate::abortable_stream::lemma_cleared_closes_all(connector.registry, 0);
    crate::abortable_stream::lemma_registered_opens_one(switched.registry);
}

/// Whatever requests a connector handles, the mode in force names a cipher
/// that the proxy runtime knows, no handle is lost count of, and after the
/// last request no stream is open.
pub proof fn lemma_requests_keep_the_connector_valid(
    connector: ConnectorView,
    requests: Seq<HttpsConnectorRequest>,
)
    requires
        connector.wf(),
    ensures
        connector.after_requests(requests).wf(),
        connector.config.recognized() ==> connector.after_requests(requests).config.recognized(),
        connector.after_requests(requests).sni_hostname == connector.sni_hostname,
        connector.after_requests(requests).registry.issued == connector.registry.issued,
        requests.len() > 0 ==> connector.after_requests(requests).registry.open_ids()
            == Set::<u64>::empty(),
    decreases requests.len(),
{
    if requests.len() > 0 {
        let before = connector.after_requests(requests.drop_last());
        lemma_requests_keep_the_connector_valid(connector, requests.drop_last());
        crate::abortable_stream::lemma_cleared_closes_all(before.registry, 0);
    }
}

/// Requests take effect in the order in which they are handled: the mode in
/// force is the one that the last request has left.
pub proof fn lemma_last_request_decides(
    connector: ConnectorView,
    requests: Seq<HttpsConnectorRequest>,
    config: ProxyConfig,
)
    ensures
        InnerProxyConfig::spec_try_from(config) matches Ok(mode) ==> connector.after_requests(
            requests.push(HttpsConnectorRequest::SetProxy(config)),
        ).config == mode,
        connector.after_requests(requests.push(HttpsConnectorRequest::Reset)).config
            == connector.after_requests(requests).config,
{
    assert(requests.push(HttpsConnectorRequest::SetProxy(config)).drop_last() == requests);
    assert(requests.push(HttpsConnectorRequest::Reset).drop_last() == requests);
}

/// A connection mode that is turned down changes nothing but what a reset
/// changes: the mode in force stays.
pub proof fn lemma_rejected_mode_is_a_reset(connector: ConnectorView, config: ProxyConfig)
    ensures
        InnerProxyConfig::spec_try_from(config) is Err ==> connector.after_request(
            HttpsConnectorRequest::SetProxy(config),
        ) == connector.after_request(HttpsConnectorRequest::Reset),
{
}

/// A request made twice leaves the mode and the streams as the request made
/// once does.
pub proof fn lemma_request_is_idempotent(connector: ConnectorView, request: HttpsConnectorRequest)
    ensures
        connector.after_request(request).after_request(request).config == connector.after_request(
            request,
        ).config,
        connector.after_request(request).after_request(request).registry
            == connector.after_request(request).registry,
{
}

/// A URI whose scheme is not the secure one is turned down as invalid input
/// in the first step: no name is looked up and no connection attempted.
pub proof fn lemma_insecure_uri_is_rejected(
    connector: ConnectorView,
    uri: TargetUri,
    literal: Option<IpAddress>,
)
    requires
        !uri@.is_https(),
    ensures
        connector.call(uri, literal) == ConnectStep::Done(Err(ConnectError::NotHttps)),
        ConnectError::NotHttps.spec_kind() == ErrorKind::InvalidInput,
{
}

/// An attempt that was not cancelled, and that began after the last
/// cancellation, ends the connection: the caller gets a stream or a failure,
/// and nothing is attempted again.
pub proof fn lemma_attempt_ends_without_cancellation(
    connector: ConnectorView,
    addr: SocketAddress,
    hostname: String,
    outcome: AttemptOutcome,
)
    ensures
        !(outcome is Cancelled) ==> connector.attempt_finished(
            connector.begin(addr, hostname),
            outcome,
        ) is Done,
        outcome matches AttemptOutcome::Failed(failure) ==> connector.attempt_finished(
            connector.begin(addr, hostname),
            outcome,
        ) == ConnectStep::Done(Err(failure.spec_error())),
{
}

/// A stream is handed out only for an attempt that began after the last
/// cancellation, and it is then open, and the one stream more than before.
pub proof fn lemma_stream_handed_out_is_current(
    connector: ConnectorView,
    attempt: Attempt,
    outcome: AttemptOutcome,
)
    requires
        connector.wf(),
        connector.registry.issued < u64::MAX,
    ensures
        connector.attempt_finished(attempt, outcome) matches ConnectStep::Done(Ok(id)) ==> {
            &&& attempt.generation == connector.generation
            &&& outcome is Connected
            &&& !connector.registry.has_issued(id)
            &&& connector.after_attempt(attempt, outcome).registry.open_ids()
                == connector.registry.open_ids().insert(id)
        },
        !(connector.attempt_finished(attempt, outcome) matches ConnectStep::Done(Ok(_)))
            ==> connector.after_attempt(attempt, outcome) == connector,
{
    crate::abortable_stream::lemma_registered_opens_one(connector.registry);
}

} // verus!
