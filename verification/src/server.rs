//! What a server does with its settings, and with the connections of visitors.
use crate::auth::{config_hashable, token_key, AuthManager, AuthSetupError, Verifier};
use crate::codec::{lowercase_of, to_lowercase};
use crate::config::{
    text_values, PortRange, ProxyConfig, ServerConfig, TransportConfig, VisitorConfig, WebServerConfig,
};
use crate::control::{ClientInfo, ControlManager};
use crate::groups::{member_in_turn, next_turn, GroupView};
use crate::message::{Message, UdpPacketMsg, VisitorManager};
use crate::metrics::{Counters, MonitorMetrics, ProxyStat};
use crate::names::NameMap;
use crate::proxies::ServerProxyManager;
use crate::session::ServerState;
use crate::text::{contains, decimal, push_decimal, spec_contains};
use crate::vhost::{
    no_channel, no_channel_text, no_members, no_members_text, no_owner, no_owner_text,
};
use crate::work::{ServerWorkConnManager, StcpBridgeManager};
use std::sync::Arc;
use vstd::prelude::*;
use vstd::string::*;

verus! {

/// `std::io::Error`, whose contents are not looked into.
#[verifier::external_type_specification]
#[verifier::external_body]
pub struct ExIoError(std::io::Error);

/// What can go wrong in a server.
#[derive(Debug)]
pub enum ServerError {
    Io(std::io::Error),
    Auth(String),
    ProxyNotFound(String),
    PortNotAllowed(u16),
    ProxyAlreadyExists(String),
    WorkConnTimeout,
    RunIdMismatch,
    Other(String),
}

/// The text of a `std::io::Error`, by its `Display`. For an error of the operating
/// system the words are the system's, so nothing is said of them.
#[verifier::external_body]
fn io_error_text(e: &std::io::Error) -> (text: String) {
    e.to_string()
}

impl ServerError {
    /// `text` describes the error. The words of an I/O error are not fixed.
    pub open spec fn described_by(self, text: Seq<char>) -> bool {
        match self {
            ServerError::Io(_) => "I/O error: "@.is_prefix_of(text),
            ServerError::Auth(e) => text == "authentication failed: "@ + e@,
            ServerError::ProxyNotFound(n) => text == "proxy not found: "@ + n@,
            ServerError::PortNotAllowed(p) => text == "port not allowed: "@ + decimal(p as nat),
            ServerError::ProxyAlreadyExists(n) => text == "proxy already exists: "@ + n@,
            ServerError::WorkConnTimeout => text == "work conn request timeout"@,
            ServerError::RunIdMismatch => text == "run ID mismatch"@,
            ServerError::Other(e) => text == e@,
        }
    }

    /// The text that describes the error.
    pub fn message(&self) -> (text: String)
        ensures
            self.described_by(text@),
    {
        match self {
            ServerError::Io(e) => {
                let inner: String = io_error_text(e);
                let text: String = "I/O error: ".to_string().concat(inner.as_str());
                assert(text@.take("I/O error: "@.len() as int) =~= "I/O error: "@);
                text
            },
            ServerError::Auth(e) => "authentication failed: ".to_string().concat(e.as_str()),
            ServerError::ProxyNotFound(n) => "proxy not found: ".to_string().concat(n.as_str()),
            ServerError::PortNotAllowed(p) => {
                let mut text: String = "port not allowed: ".to_string();
                push_decimal(&mut text, *p as u64);
                text
            },
            ServerError::ProxyAlreadyExists(n) => "proxy already exists: ".to_string().concat(
                n.as_str(),
            ),
            ServerError::WorkConnTimeout => "work conn request timeout".to_string(),
            ServerError::RunIdMismatch => "run ID mismatch".to_string(),
            ServerError::Other(e) => e.clone(),
        }
    }
}

impl From<std::io::Error> for ServerError {
    fn from(e: std::io::Error) -> (r: ServerError) {
        ServerError::Io(e)
    }
}

impl vstd::std_specs::convert::FromSpecImpl<std::io::Error> for ServerError {
    open spec fn obeys_from_spec() -> bool {
        true
    }

    open spec fn from_spec(e: std::io::Error) -> ServerError {
        ServerError::Io(e)
    }
}

/// An address and a port as one text.
pub open spec fn host_port(addr: Seq<char>, port: u16) -> Seq<char> {
    addr + ":"@ + decimal(port as nat)
}

/// An address and a port as one text.
pub fn join_host_port(addr: &str, port: u16) -> (text: String)
    ensures
        text@ == host_port(addr@, port),
{
    let mut text: String = addr.to_string();
    text.append(":");
    push_decimal(&mut text, port as u64);
    text
}

/// Where the certificate of a server comes from.
#[derive(Debug)]
pub enum TlsSource {
    /// There is no encryption.
    Disabled,
    Files { cert_file: String, key_file: String },
    /// A certificate that is built in, for want of another.
    Builtin,
}

/// Where the certificate of a server comes from: from files, where both are given.
pub open spec fn tls_source_of(t: TransportConfig) -> TlsSource {
    match t.tls {
        None => TlsSource::Disabled,
        Some(tls) => if !tls.enable {
            TlsSource::Disabled
        } else {
            match (tls.cert_file, tls.key_file) {
                (Some(cert_file), Some(key_file)) => TlsSource::Files { cert_file, key_file },
                _ => TlsSource::Builtin,
            }
        },
    }
}

/// Where the certificate of a server comes from.
pub fn server_tls_source(t: &TransportConfig) -> (s: TlsSource)
    ensures
        s == tls_source_of(*t),
{
    match &t.tls {
        None => TlsSource::Disabled,
        Some(tls) => {
            if !tls.enable {
                return TlsSource::Disabled;
            }
            match (&tls.cert_file, &tls.key_file) {
                (Some(cert_file), Some(key_file)) => TlsSource::Files {
                    cert_file: cert_file.clone(),
                    key_file: key_file.clone(),
                },
                _ => TlsSource::Builtin,
            }
        },
    }
}

/// The text of the error of a server that is to refuse what it cannot offer.
pub open spec fn tls_only_without_tls() -> Seq<char> {
    "tls_only requires transport.tls.enable = true (with cert/key or builtin cert)"@
}

/// The text of the error of a server that would have to offer what it refuses.
pub open spec fn tls_only_with_kcp() -> Seq<char> {
    "tls_only is enabled but KCP is plaintext UDP; disable kcp_bind_port or tls_only"@
}

/// Where the web server listens, where there is one.
pub open spec fn web_addr_of(w: WebServerConfig) -> Option<Seq<char>> {
    if w.port > 0 {
        Some(host_port(w.addr@, w.port))
    } else {
        None
    }
}

/// The addresses that a server listens on.
#[derive(Debug)]
pub struct ListenPlan {
    pub control: String,
    pub http: String,
    /// Only where there is a certificate.
    pub https: Option<String>,
    pub work: String,
    /// Where KCP is asked for.
    pub kcp: Option<String>,
}

/// The port for work connections.
pub open spec fn work_port(given: Option<u16>, base: u16) -> u16 {
    match given {
        Some(p) => p,
        None => (base + 1000) as u16,
    }
}

impl ListenPlan {
    /// This is where a server with these settings listens.
    pub open spec fn follows(self, c: ServerConfig, tls: bool) -> bool {
        &&& self.control@ == host_port(c.bind_addr@, c.bind_port)
        &&& self.http@ == host_port(
            c.bind_addr@,
            match c.vhost_http_port {
                Some(p) => p,
                None => 9090,
            },
        )
        &&& match self.https {
            Some(a) => tls && a@ == host_port(
                c.bind_addr@,
                match c.vhost_https_port {
                    Some(p) => p,
                    None => 9091,
                },
            ),
            None => !tls,
        }
        &&& self.work@ == host_port(c.bind_addr@, work_port(c.work_conn_port, c.bind_port))
        &&& match self.kcp {
            Some(a) => c.kcp_bind_port matches Some(p) && a@ == host_port(c.bind_addr@, p),
            None => c.kcp_bind_port is None,
        }
    }
}

/// A server before it listens.
pub struct Server {
    config: ServerConfig,
    auth_manager: AuthManager,
    config_path: Option<String>,
}

/// `m` is the manager that a configuration asks for.
pub open spec fn is_manager_for(m: AuthManager, c: crate::config::AuthConfig) -> bool {
    &&& m.wf()
    &&& m.key() == (match c.token {
        Some(t) => Some(token_key(t@)),
        None => None,
    })
    &&& match m.login_check() {
        Verifier::Token(v) => c.method@ == "token"@ && c.token is Some && v.token() == c.token->0@,
        Verifier::Oidc(v) => c.method@ == "oidc"@ && c.oidc is Some && v.issuer()
            == c.oidc->0.issuer@ && v.audience() == c.oidc->0.audience@ && v.client_secret()
            == c.oidc->0.client_secret@,
    }
}

/// Whether there is a manager for a configuration.
pub open spec fn has_manager(c: crate::config::AuthConfig) -> bool {
    ||| (c.method@ == "token"@ && c.token is Some)
    ||| (c.method@ == "oidc"@ && c.oidc is Some)
}

/// What is wrong with a configuration that names no way to log in.
pub open spec fn auth_problem(c: crate::config::AuthConfig) -> Seq<char> {
    if c.method@ == "token"@ {
        AuthSetupError::TokenRequired.spec_message()
    } else if c.method@ == "oidc"@ {
        AuthSetupError::OidcConfigRequired.spec_message()
    } else {
        "unsupported auth method: "@ + c.method@
    }
}

/// Whether a server can be made: there is a way to log in, and a certificate where
/// one is needed.
pub open spec fn can_be_made(c: ServerConfig) -> bool {
    has_manager(c.auth) && (c.transport.tls_only ==> !(tls_source_of(c.transport) is Disabled))
}

/// Whether a server can listen: it need not offer what it refuses.
pub open spec fn can_listen(c: ServerConfig) -> bool {
    !(c.kcp_bind_port is Some && c.transport.tls_only)
}

/// The manager that a configuration asks for, or what is wrong with it.
pub fn make_auth_manager(c: &crate::config::AuthConfig) -> (r: Result<AuthManager, ServerError>)
    requires
        config_hashable(*c),
    ensures
        r is Ok == has_manager(*c),
        r matches Ok(m) ==> is_manager_for(m, *c),
        r matches Err(e) ==> (e matches ServerError::Other(t) && t@ == auth_problem(*c)),
{
    proof {
        reveal_strlit("token");
        reveal_strlit("oidc");
        assert("token"@[0] != "oidc"@[0]);
    }
    match AuthManager::new(c) {
        Ok(m) => Ok(m),
        Err(e) => Err(ServerError::Other(e.message())),
    }
}

impl Server {
    pub closed spec fn config(self) -> ServerConfig {
        self.config
    }

    pub closed spec fn auth(self) -> AuthManager {
        self.auth_manager
    }

    pub closed spec fn config_path(self) -> Option<String> {
        self.config_path
    }

    /// A server with these settings. They have to name a way to log in, and a server
    /// that refuses what is not encrypted has to have a certificate.
    pub fn new(config: ServerConfig, config_path: Option<String>) -> (r: Result<Self, ServerError>)
        requires
            config_hashable(config.auth),
        ensures
            r is Ok == can_be_made(config),
            match r {
                Ok(s) => s.config() == config && s.config_path() == config_path && is_manager_for(
                    s.auth(),
                    config.auth,
                ),
                Err(e) => e matches ServerError::Other(t) && t@ == (if has_manager(config.auth) {
                    tls_only_without_tls()
                } else {
                    auth_problem(config.auth)
                }),
            },
    {
        let auth_manager: AuthManager = match make_auth_manager(&config.auth) {
            Ok(m) => m,
            Err(e) => {
                return Err(e);
            },
        };
        if config.transport.tls_only {
            if let TlsSource::Disabled = server_tls_source(&config.transport) {
                return Err(
                    ServerError::Other(
                        "tls_only requires transport.tls.enable = true (with cert/key or builtin cert)".to_string(),
                    ),
                );
            }
        }
        Ok(Server { config, auth_manager, config_path })
    }

    /// How clients are let in.
    pub fn auth_manager(&self) -> (m: &AuthManager)
        ensures
            *m == self.auth(),
    {
        &self.auth_manager
    }

    /// The settings.
    pub fn settings(&self) -> (c: &ServerConfig)
        ensures
            *c == self.config(),
    {
        &self.config
    }

    /// Where the web server listens, where there is one.
    pub fn web_addr(&self) -> (a: Option<String>)
        ensures
            match a {
                Some(t) => web_addr_of(self.config().web_server) == Some(t@),
                None => web_addr_of(self.config().web_server) is None,
            },
    {
        if self.config.web_server.port > 0 {
            Some(
                join_host_port(self.config.web_server.addr.as_str(), self.config.web_server.port),
            )
        } else {
            None
        }
    }

    /// Where the server listens. KCP cannot be encrypted, so a server that refuses
    /// what is not encrypted does not offer it. The port for work connections, where
    /// it is not given, has to exist.
    pub fn start(&self) -> (r: Result<ListenPlan, ServerError>)
        requires
            self.config().work_conn_port is None ==> self.config().bind_port + 1000 <= u16::MAX,
        ensures
            r is Ok == can_listen(self.config()),
            match r {
                Ok(p) => p.follows(
                    self.config(),
                    !(tls_source_of(self.config().transport) is Disabled),
                ),
                Err(e) => e matches ServerError::Other(t) && t@ == tls_only_with_kcp(),
            },
    {
        let c: &ServerConfig = &self.config;
        let addr: &str = c.bind_addr.as_str();
        if c.kcp_bind_port.is_some() && c.transport.tls_only {
            return Err(
                ServerError::Other(
                    "tls_only is enabled but KCP is plaintext UDP; disable kcp_bind_port or tls_only".to_string(),
                ),
            );
        }
        let http_port: u16 = match c.vhost_http_port {
            Some(p) => p,
            None => 9090,
        };
        let https_port: u16 = match c.vhost_https_port {
            Some(p) => p,
            None => 9091,
        };
        let https: Option<String> = match server_tls_source(&c.transport) {
            TlsSource::Disabled => None,
            _ => Some(join_host_port(addr, https_port)),
        };
        let work_conn_port: u16 = match c.work_conn_port {
            Some(p) => p,
            None => c.bind_port + 1000,
        };
        let kcp: Option<String> = match c.kcp_bind_port {
            Some(p) => Some(join_host_port(addr, p)),
            None => None,
        };
        Ok(
            ListenPlan {
                control: join_host_port(addr, c.bind_port),
                http: join_host_port(addr, http_port),
                https,
                work: join_host_port(addr, work_conn_port),
                kcp,
            },
        )
    }

    /// What all control connections share, before the first. `now` is in seconds.
    pub fn initial_state<C, T>(&self, now: u64) -> (s: ServerState<C, T>)
        ensures
            s.wf(),
            s.proxies.allow() == self.config().allow_ports@,
            s.proxies.limit() == self.config().max_ports_per_user,
            s.proxies.proxies().dom() == Set::<Seq<char>>::empty(),
            s.proxies.groups() == Map::<u16, GroupView>::empty(),
            s.proxies.domains() == Map::<Seq<char>, Seq<char>>::empty(),
            s.proxies.routed() == Map::<Seq<char>, Arc<ProxyConfig>>::empty(),
            s.proxies.usage() == Map::<Seq<char>, Seq<char>>::empty(),
            s.owners@.dom() == Set::<Seq<char>>::empty(),
            s.xtcp_visitors@.dom() == Set::<Seq<char>>::empty(),
            s.controls.reachable() == Set::<Seq<char>>::empty(),
            s.controls.clients() == Map::<Seq<char>, ClientInfo>::empty(),
            s.controls.order() == Seq::<Seq<char>>::empty(),
            s.bridges.bridges() == Map::<Seq<char>, Option<C>>::empty(),
            s.pools.pools() == Map::<Seq<char>, Seq<C>>::empty(),
            s.pools.size() == self.config().transport.pool_count,
            s.metrics.counters() == Counters::fresh(now),
            s.metrics.stats() == Map::<Seq<char>, ProxyStat>::empty(),
            s.metrics.order() == Seq::<Seq<char>>::empty(),
            s.metrics.generations() == 0,
    {
        let mut allow: Vec<PortRange> = Vec::new();
        let mut i: usize = 0;
        while i < self.config.allow_ports.len()
            invariant
                i <= self.config.allow_ports.len(),
                allow@ == self.config.allow_ports@.take(i as int),
            decreases self.config.allow_ports.len() - i,
        {
            allow.push(self.config.allow_ports[i]);
            i = i + 1;
        }
        assert(allow@ == self.config.allow_ports@);
        let s = ServerState {
            proxies: ServerProxyManager::new(allow, self.config.max_ports_per_user),
            owners: NameMap::new(),
            xtcp_visitors: NameMap::new(),
            controls: ControlManager::new(),
            bridges: StcpBridgeManager::new(),
            pools: ServerWorkConnManager::new(self.config.transport.pool_count as usize),
            metrics: MonitorMetrics::new(now),
        };
        assert(s.proxies.proxies().dom() =~= Set::<Seq<char>>::empty());
        assert(s.owners@.dom() =~= Set::<Seq<char>>::empty());
        assert(s.xtcp_visitors@.dom() =~= Set::<Seq<char>>::empty());
        assert(s.controls.reachable() =~= Set::<Seq<char>>::empty());
        s
    }

    /// Takes over settings that were read anew. What the server listens on stays as
    /// it is; where they name no way to log in, the former way stays.
    pub fn reload_config(&mut self, new_config: ServerConfig) -> (r: Result<(), ServerError>)
        requires
            config_hashable(new_config.auth),
        ensures
            final(self).config_path() == old(self).config_path(),
            final(self).config() == new_config,
            r is Ok == has_manager(new_config.auth),
            r is Ok ==> is_manager_for(final(self).auth(), new_config.auth),
            r is Err ==> final(self).auth() == old(self).auth(),
            r matches Err(e) ==> (e matches ServerError::Other(t) && t@ == auth_problem(
                new_config.auth,
            )),
    {
        self.config = new_config;
        match make_auth_manager(&self.config.auth) {
            Ok(m) => {
                self.auth_manager = m;
                Ok(())
            },
            Err(e) => Err(e),
        }
    }

    /// Where the settings were read from.
    pub fn config_file(&self) -> (p: Option<&str>)
        ensures
            match p {
                Some(t) => self.config_path() matches Some(q) && q@ == t@,
                None => self.config_path() is None,
            },
    {
        match &self.config_path {
            Some(p) => Some(p.as_str()),
            None => None,
        }
    }
}

/// Where a visitor of a TCP proxy goes.
pub enum VisitorRoute {
    /// This is sent back, and the connection ends.
    Respond { text: String },
    /// The client of this proxy cannot be reached: this is sent back, and the
    /// connection, which counts as one of the proxy, ends.
    Unreachable { target: String, text: String },
    /// The plugin of the proxy answers.
    Plugin { target: String },
    /// A work connection of this proxy, from the client of this run, takes over.
    WorkConn { target: String, run_id: String },
}

/// Where a visitor of the proxy `target` goes.
pub open spec fn route_of(
    target: Seq<char>,
    has_plugin: bool,
    owners: Map<Seq<char>, Seq<char>>,
    reachable: Set<Seq<char>>,
    route: VisitorRoute,
) -> bool {
    if has_plugin {
        route matches VisitorRoute::Plugin { target: t } && t@ == target
    } else if !owners.contains_key(target) {
        route matches VisitorRoute::Unreachable { target: t, text } && t@ == target && text@
            == no_owner()
    } else if !reachable.contains(owners[target]) {
        route matches VisitorRoute::Unreachable { target: t, text } && t@ == target && text@
            == no_channel()
    } else {
        route matches VisitorRoute::WorkConn { target: t, run_id } && t@ == target && run_id@
            == owners[target]
    }
}

/// Where a visitor of the proxy `target` goes.
pub fn route_to_target<T>(
    target: String,
    has_plugin: bool,
    owners: &NameMap<String>,
    controls: &ControlManager<T>,
) -> (route: VisitorRoute)
    ensures
        route_of(target@, has_plugin, text_values(owners@), controls.reachable(), route),
{
    if has_plugin {
        return VisitorRoute::Plugin { target };
    }
    match owners.get(target.as_str()) {
        None => VisitorRoute::Unreachable { target, text: no_owner_text() },
        Some(run_id) => {
            if controls.is_reachable(run_id.as_str()) {
                VisitorRoute::WorkConn { target, run_id: run_id.clone() }
            } else {
                VisitorRoute::Unreachable { target, text: no_channel_text() }
            }
        },
    }
}

/// Where a visitor of a listener goes: of the proxy that opened it, or, where it is
/// shared by a group, of the member whose turn it is.
pub fn route_visitor<C, T>(
    state: &mut ServerState<C, T>,
    proxy_name: &str,
    group_port: Option<u16>,
    has_plugin: bool,
) -> (route: VisitorRoute)
    requires
        old(state).wf(),
    ensures
        final(state).wf(),
        *final(state) == (ServerState { proxies: final(state).proxies, ..*old(state) }),
        match group_port {
            None => final(state).proxies == old(state).proxies && route_of(
                proxy_name@,
                has_plugin,
                text_values(old(state).owners@),
                old(state).controls.reachable(),
                route,
            ),
            Some(port) => if old(state).proxies.groups().contains_key(port) {
                &&& route_of(
                    member_in_turn(old(state).proxies.groups()[port]),
                    has_plugin,
                    text_values(old(state).owners@),
                    old(state).controls.reachable(),
                    route,
                )
                &&& final(state).proxies.groups() == old(state).proxies.groups().insert(
                    port,
                    (GroupView {
                        turn: next_turn(old(state).proxies.groups()[port].turn),
                        ..old(state).proxies.groups()[port]
                    }),
                )
            } else {
                &&& route matches VisitorRoute::Respond { text }
                &&& text@ == no_members()
                &&& final(state).proxies.groups() == old(state).proxies.groups()
            },
        },
        final(state).proxies.proxies() == old(state).proxies.proxies(),
        final(state).proxies.usage() == old(state).proxies.usage(),
        final(state).proxies.domains() == old(state).proxies.domains(),
        final(state).proxies.routed() == old(state).proxies.routed(),
        final(state).proxies.same_rules(old(state).proxies),
{
    let target: String = match group_port {
        None => proxy_name.to_string(),
        Some(port) => match state.proxies.pick_member(port) {
            Some(name) => name,
            None => {
                return VisitorRoute::Respond { text: no_members_text() };
            },
        },
    };
    route_to_target(target, has_plugin, &state.owners, &state.controls)
}

/// The message for a datagram that a visitor of a UDP proxy sent, and the run that
/// it goes to; nothing where no client can be reached.
pub fn udp_from_visitor<T>(
    proxy_name: &str,
    data: Vec<u8>,
    src_addr: &str,
    owners: &NameMap<String>,
    controls: &ControlManager<T>,
) -> (r: Option<(String, Message)>)
    ensures
        r is Some == (text_values(owners@).contains_key(proxy_name@)
            && controls.reachable().contains(text_values(owners@)[proxy_name@])),
        r matches Some(p) ==> {
            &&& p.0@ == text_values(owners@)[proxy_name@]
            &&& p.1 matches Message::UdpPacket(m)
            &&& m.proxy_name@ == proxy_name@
            &&& m.data == data
            &&& m.client_addr matches Some(a)
            &&& a@ == src_addr@
        },
{
    match owners.get(proxy_name) {
        None => None,
        Some(run_id) => {
            if !controls.is_reachable(run_id.as_str()) {
                return None;
            }
            Some(
                (
                    run_id.clone(),
                    Message::UdpPacket(
                        UdpPacketMsg {
                            proxy_name: proxy_name.to_string(),
                            data,
                            client_addr: Some(src_addr.to_string()),
                        },
                    ),
                ),
            )
        },
    }
}

/// Whether the text of an error says that the other end went away.
pub open spec fn is_peer_gone(text: Seq<char>) -> bool {
    let lower = lowercase_of(text);
    ||| spec_contains(lower, "connection reset"@)
    ||| spec_contains(lower, "connection aborted"@)
    ||| spec_contains(lower, "broken pipe"@)
}

/// Whether the text of an error says that the other end went away, which is not
/// worth a warning.
pub fn peer_gone(text: &str) -> (b: bool)
    ensures
        b == is_peer_gone(text@),
{
    let lower: String = to_lowercase(text);
    contains(lower.as_str(), "connection reset") || contains(lower.as_str(), "connection aborted")
        || contains(lower.as_str(), "broken pipe")
}

/// The visitors that are set up on a server.
pub struct ServerVisitorManager {
    visitors: NameMap<VisitorConfig>,
}

impl ServerVisitorManager {
    /// The visitors, by name.
    pub closed spec fn visitors(self) -> Map<Seq<char>, VisitorConfig> {
        self.visitors@
    }

    pub fn new() -> (m: Self)
        ensures
            m.visitors() == Map::<Seq<char>, VisitorConfig>::empty(),
    {
        ServerVisitorManager { visitors: NameMap::new() }
    }
}

impl VisitorManager for ServerVisitorManager {
    fn add_visitor(&mut self, config: VisitorConfig)
        ensures
            final(self).visitors() == old(self).visitors().insert(config.name@, config),
    {
        let name: String = config.name.clone();
        self.visitors.insert(name, config);
    }

    fn remove_visitor(&mut self, name: &str)
        ensures
            final(self).visitors() == old(self).visitors().remove(name@),
    {
        let _ = self.visitors.remove(name);
    }

    fn clear(&mut self)
        ensures
            final(self).visitors() == Map::<Seq<char>, VisitorConfig>::empty(),
    {
        self.visitors.clear();
    }
}

/// A server that refuses what is not encrypted never listens for what cannot be:
/// it has a certificate, and no KCP port.
pub proof fn law_tls_only_offers_no_plaintext(config: ServerConfig, plan: ListenPlan)
    requires
        config.transport.tls_only,
        can_be_made(config),
        can_listen(config),
        plan.follows(config, !(tls_source_of(config.transport) is Disabled)),
    ensures
        plan.https is Some,
        plan.kcp is None,
{
}

} // verus!
