//! Server and client configuration: the settings, their defaults, how a second
//! file is merged into a first, and validation.
use crate::environment::{
    client_expanded, client_expands, expanded, expansion_of, server_expanded, server_expands,
};
use crate::names::NameMap;
use vstd::prelude::*;
use vstd::string::*;

verus! {

/// What can be wrong with a configuration file.
#[derive(Debug)]
pub enum ConfigError {
    Io(String),
    Toml(String),
    Yaml(String),
    Json(String),
    Glob(String),
    Invalid(String),
}

impl ConfigError {
    /// The text that describes an error.
    pub open spec fn spec_message(self) -> Seq<char> {
        match self {
            ConfigError::Io(e) => "I/O error: "@ + e@,
            ConfigError::Toml(e) => "TOML parse error: "@ + e@,
            ConfigError::Yaml(e) => "YAML parse error: "@ + e@,
            ConfigError::Json(e) => "JSON parse error: "@ + e@,
            ConfigError::Glob(e) => "glob pattern error: "@ + e@,
            ConfigError::Invalid(e) => "invalid configuration: "@ + e@,
        }
    }

    /// The text that describes the error.
    pub fn message(&self) -> (text: String)
        ensures
            text@ == self.spec_message(),
    {
        match self {
            ConfigError::Io(e) => "I/O error: ".to_string().concat(e.as_str()),
            ConfigError::Toml(e) => "TOML parse error: ".to_string().concat(e.as_str()),
            ConfigError::Yaml(e) => "YAML parse error: ".to_string().concat(e.as_str()),
            ConfigError::Json(e) => "JSON parse error: ".to_string().concat(e.as_str()),
            ConfigError::Glob(e) => "glob pattern error: ".to_string().concat(e.as_str()),
            ConfigError::Invalid(e) => "invalid configuration: ".to_string().concat(e.as_str()),
        }
    }
}

/// Why settings are not accepted.
#[derive(Debug, Clone, Copy, PartialEq, Eq, Structural)]
pub enum ConfigProblem {
    BindPortRequired,
    ServerAddrRequired,
    ServerPortRequired,
    /// There are references to the environment whose values refer to it without end.
    EndlessReferences,
}

impl ConfigProblem {
    /// The text that describes a problem.
    pub open spec fn spec_message(self) -> Seq<char> {
        match self {
            ConfigProblem::BindPortRequired => "bind_port is required"@,
            ConfigProblem::ServerAddrRequired => "server_addr is required"@,
            ConfigProblem::ServerPortRequired => "server_port is required"@,
            ConfigProblem::EndlessReferences => "environment references do not end"@,
        }
    }

    /// The text that describes the problem.
    pub fn message(&self) -> (text: String)
        ensures
            text@ == self.spec_message(),
    {
        match self {
            ConfigProblem::BindPortRequired => "bind_port is required".to_string(),
            ConfigProblem::ServerAddrRequired => "server_addr is required".to_string(),
            ConfigProblem::ServerPortRequired => "server_port is required".to_string(),
            ConfigProblem::EndlessReferences => "environment references do not end".to_string(),
        }
    }
}

/// Settings of a server.
#[derive(Debug, Clone)]
pub struct ServerConfig {
    pub bind_addr: String,
    pub bind_port: u16,
    pub kcp_bind_port: Option<u16>,
    pub quic_bind_port: Option<u16>,
    pub vhost_http_port: Option<u16>,
    pub vhost_https_port: Option<u16>,
    pub tcpmux_http_connect_port: Option<u16>,
    /// Port for work connections; `bind_port + 1000` where it is not given.
    pub work_conn_port: Option<u16>,
    pub web_server: WebServerConfig,
    pub auth: AuthConfig,
    pub transport: TransportConfig,
    /// Ports that proxies may listen on; none where it is empty.
    pub allow_ports: Vec<PortRange>,
    pub max_ports_per_user: Option<usize>,
    pub custom_404_page: Option<String>,
    pub includes: Option<Vec<String>>,
    pub proxies: Vec<ProxyConfig>,
}

impl Default for ServerConfig {
    fn default() -> (r: Self)
        ensures
            r.bind_addr@ == "0.0.0.0"@,
            r.bind_port == 7000,
            r.kcp_bind_port is None,
            r.quic_bind_port is None,
            r.vhost_http_port is None,
            r.vhost_https_port is None,
            r.tcpmux_http_connect_port is None,
            r.work_conn_port is None,
            r.web_server.is_default(),
            r.auth.is_default(),
            r.transport.is_default(),
            r.allow_ports@.len() == 0,
            r.max_ports_per_user is None,
            r.custom_404_page is None,
            r.includes is None,
            r.proxies@.len() == 0,
    {
        ServerConfig {
            bind_addr: "0.0.0.0".to_string(),
            bind_port: 7000,
            kcp_bind_port: None,
            quic_bind_port: None,
            vhost_http_port: None,
            vhost_https_port: None,
            tcpmux_http_connect_port: None,
            work_conn_port: None,
            web_server: WebServerConfig::default(),
            auth: AuthConfig::default(),
            transport: TransportConfig::default(),
            allow_ports: Vec::new(),
            max_ports_per_user: None,
            custom_404_page: None,
            includes: None,
            proxies: Vec::new(),
        }
    }
}

/// Settings of a client.
#[derive(Debug, Clone)]
pub struct ClientConfig {
    pub server_addr: String,
    pub server_port: u16,
    /// Port for work connections; `server_port + 1000` where it is not given.
    pub work_conn_port: Option<u16>,
    pub user: Option<String>,
    pub client_id: Option<String>,
    pub web_server: WebServerConfig,
    pub auth: AuthConfig,
    pub transport: TransportConfig,
    pub proxies: Vec<ProxyConfig>,
    pub visitors: Vec<VisitorConfig>,
    pub includes: Option<Vec<String>>,
}

impl Default for ClientConfig {
    fn default() -> (r: Self)
        ensures
            r.server_addr@ == "127.0.0.1"@,
            r.server_port == 7000,
            r.work_conn_port is None,
            r.user is None,
            r.client_id is None,
            r.web_server.is_default(),
            r.auth.is_default(),
            r.transport.is_default(),
            r.proxies@.len() == 0,
            r.visitors@.len() == 0,
            r.includes is None,
    {
        ClientConfig {
            server_addr: "127.0.0.1".to_string(),
            server_port: 7000,
            work_conn_port: None,
            user: None,
            client_id: None,
            web_server: WebServerConfig::default(),
            auth: AuthConfig::default(),
            transport: TransportConfig::default(),
            proxies: Vec::new(),
            visitors: Vec::new(),
            includes: None,
        }
    }
}

/// Settings of the built-in web server, which runs only where `port` is not 0.
#[derive(Debug, Clone)]
pub struct WebServerConfig {
    pub addr: String,
    pub port: u16,
    pub user: Option<String>,
    pub password: Option<String>,
}

impl WebServerConfig {
    pub open spec fn is_default(self) -> bool {
        &&& self.addr@ == Seq::<char>::empty()
        &&& self.port == 0
        &&& self.user is None
        &&& self.password is None
    }
}

impl Default for WebServerConfig {
    fn default() -> (r: Self)
        ensures
            r.is_default(),
    {
        WebServerConfig { addr: String::new(), port: 0, user: None, password: None }
    }
}

/// How clients prove who they are: by `token` or by `oidc`.
#[derive(Debug, Clone)]
pub struct AuthConfig {
    pub method: String,
    pub token: Option<String>,
    pub oidc: Option<OidcConfig>,
}

impl AuthConfig {
    pub open spec fn is_default(self) -> bool {
        &&& self.method@ == "token"@
        &&& self.token is None
        &&& self.oidc is None
    }
}

impl Default for AuthConfig {
    fn default() -> (r: Self)
        ensures
            r.is_default(),
    {
        AuthConfig { method: "token".to_string(), token: None, oidc: None }
    }
}

/// Settings of an OpenID Connect provider.
#[derive(Debug, Clone)]
pub struct OidcConfig {
    pub issuer: String,
    pub audience: String,
    pub client_id: String,
    pub client_secret: String,
    pub token_endpoint_url: String,
}

impl Default for OidcConfig {
    fn default() -> (r: Self)
        ensures
            r.issuer@ == Seq::<char>::empty(),
            r.audience@ == Seq::<char>::empty(),
            r.client_id@ == Seq::<char>::empty(),
            r.client_secret@ == Seq::<char>::empty(),
            r.token_endpoint_url@ == Seq::<char>::empty(),
    {
        OidcConfig {
            issuer: String::new(),
            audience: String::new(),
            client_id: String::new(),
            client_secret: String::new(),
            token_endpoint_url: String::new(),
        }
    }
}

/// How the two ends reach each other.
#[derive(Debug, Clone)]
pub struct TransportConfig {
    pub protocol: String,
    /// Encryption, which is on by default; off where it is not given.
    pub tls: Option<TlsConfig>,
    pub tcp_mux: bool,
    pub tls_only: bool,
    pub pool_count: u32,
    pub bandwidth_limit: Option<String>,
}

impl TransportConfig {
    pub open spec fn is_default(self) -> bool {
        &&& self.protocol@ == "tcp"@
        &&& self.tls matches Some(tls) && tls.is_default()
        &&& self.tcp_mux
        &&& !self.tls_only
        &&& self.pool_count == 10
        &&& self.bandwidth_limit is None
    }
}

impl Default for TransportConfig {
    fn default() -> (r: Self)
        ensures
            r.is_default(),
    {
        TransportConfig {
            protocol: "tcp".to_string(),
            tls: Some(TlsConfig::default()),
            tcp_mux: true,
            tls_only: false,
            pool_count: 10,
            bandwidth_limit: None,
        }
    }
}

/// Certificates and checks of encrypted connections.
#[derive(Debug, Clone)]
pub struct TlsConfig {
    pub enable: bool,
    pub cert_file: Option<String>,
    pub key_file: Option<String>,
    pub trusted_ca_file: Option<String>,
    pub skip_verify: bool,
    pub force: bool,
}

impl TlsConfig {
    pub open spec fn is_default(self) -> bool {
        &&& self.enable
        &&& self.cert_file is None
        &&& self.key_file is None
        &&& self.trusted_ca_file is None
        &&& !self.skip_verify
        &&& !self.force
    }
}

impl Default for TlsConfig {
    fn default() -> (r: Self)
        ensures
            r.is_default(),
    {
        TlsConfig {
            enable: true,
            cert_file: None,
            key_file: None,
            trusted_ca_file: None,
            skip_verify: false,
            force: false,
        }
    }
}

/// Ports from `start` to `end`, and the port `single`.
#[derive(Debug, Clone, Copy, PartialEq, Eq, Structural)]
pub struct PortRange {
    pub start: Option<u16>,
    pub end: Option<u16>,
    pub single: Option<u16>,
}

impl Default for PortRange {
    fn default() -> (r: Self)
        ensures
            r == (PortRange { start: None, end: None, single: None }),
    {
        PortRange { start: None, end: None, single: None }
    }
}

/// One service that a client offers through the server.
#[derive(Debug, Clone)]
pub struct ProxyConfig {
    pub name: String,
    /// The kind of proxy: `tcp`, `udp`, `http`, `https`, `websocket`, `stcp` or `xtcp`.
    pub kind: String,
    pub local_ip: String,
    pub local_port: u16,
    pub remote_port: Option<u16>,
    pub custom_domains: Option<Vec<String>>,
    pub subdomain: Option<String>,
    pub locations: Option<Vec<String>>,
    pub host_header_rewrite: Option<String>,
    pub http_user: Option<String>,
    pub http_password: Option<String>,
    pub health_check: Option<HealthCheckConfig>,
    pub bandwidth_limit: Option<String>,
    pub secret_key: Option<String>,
    pub transport: Option<TransportConfig>,
    pub plugin: Option<PluginConfig>,
    pub proxy_protocol: Option<bool>,
    pub group: Option<String>,
    pub group_key: Option<String>,
}

impl Default for ProxyConfig {
    fn default() -> (r: Self)
        ensures
            r.name@ == Seq::<char>::empty(),
            r.kind@ == Seq::<char>::empty(),
            r.local_ip@ == Seq::<char>::empty(),
            r.local_port == 0,
            r.remote_port is None,
            r.custom_domains is None,
            r.subdomain is None,
            r.locations is None,
            r.host_header_rewrite is None,
            r.http_user is None,
            r.http_password is None,
            r.health_check is None,
            r.bandwidth_limit is None,
            r.secret_key is None,
            r.transport is None,
            r.plugin is None,
            r.proxy_protocol is None,
            r.group is None,
            r.group_key is None,
    {
        ProxyConfig {
            name: String::new(),
            kind: String::new(),
            local_ip: String::new(),
            local_port: 0,
            remote_port: None,
            custom_domains: None,
            subdomain: None,
            locations: None,
            host_header_rewrite: None,
            http_user: None,
            http_password: None,
            health_check: None,
            bandwidth_limit: None,
            secret_key: None,
            transport: None,
            plugin: None,
            proxy_protocol: None,
            group: None,
            group_key: None,
        }
    }
}

/// A local port through which a client reaches another client's service.
#[derive(Debug, Clone)]
pub struct VisitorConfig {
    pub name: String,
    /// The kind of visitor: `stcp` or `xtcp`.
    pub kind: String,
    pub server_name: String,
    pub secret_key: Option<String>,
    pub bind_addr: String,
    pub bind_port: u16,
    pub transport: Option<TransportConfig>,
}

impl Default for VisitorConfig {
    fn default() -> (r: Self)
        ensures
            r.name@ == Seq::<char>::empty(),
            r.kind@ == Seq::<char>::empty(),
            r.server_name@ == Seq::<char>::empty(),
            r.secret_key is None,
            r.bind_addr@ == Seq::<char>::empty(),
            r.bind_port == 0,
            r.transport is None,
    {
        VisitorConfig {
            name: String::new(),
            kind: String::new(),
            server_name: String::new(),
            secret_key: None,
            bind_addr: String::new(),
            bind_port: 0,
            transport: None,
        }
    }
}

/// How a local service is probed.
#[derive(Debug, Clone)]
pub struct HealthCheckConfig {
    /// The kind of probe: `tcp` or `http`.
    pub kind: String,
    pub timeout_seconds: u32,
    pub max_failed: u32,
    pub interval_seconds: u32,
    pub path: Option<String>,
}

impl Default for HealthCheckConfig {
    fn default() -> (r: Self)
        ensures
            r.kind@ == Seq::<char>::empty(),
            r.timeout_seconds == 0,
            r.max_failed == 0,
            r.interval_seconds == 0,
            r.path is None,
    {
        HealthCheckConfig {
            kind: String::new(),
            timeout_seconds: 0,
            max_failed: 0,
            interval_seconds: 0,
            path: None,
        }
    }
}

/// Settings of a plugin that answers visitors itself.
#[derive(Debug, Clone)]
pub struct PluginConfig {
    pub kind: String,
    pub unix_path: Option<String>,
    pub local_path: Option<String>,
    pub strip_prefix: Option<String>,
    pub http_user: Option<String>,
    pub http_password: Option<String>,
    pub local_addr: Option<String>,
    pub crt_path: Option<String>,
    pub key_path: Option<String>,
}

impl Default for PluginConfig {
    fn default() -> (r: Self)
        ensures
            r.kind@ == Seq::<char>::empty(),
            r.unix_path is None,
            r.local_path is None,
            r.strip_prefix is None,
            r.http_user is None,
            r.http_password is None,
            r.local_addr is None,
            r.crt_path is None,
            r.key_path is None,
    {
        PluginConfig {
            kind: String::new(),
            unix_path: None,
            local_path: None,
            strip_prefix: None,
            http_user: None,
            http_password: None,
            local_addr: None,
            crt_path: None,
            key_path: None,
        }
    }
}

/// `a` where it is given, else `b`.
pub open spec fn first_given<T>(a: Option<T>, b: Option<T>) -> Option<T> {
    if a is Some {
        a
    } else {
        b
    }
}

/// The server settings that merging leaves alone.
pub open spec fn server_rest_unchanged(a: ServerConfig, b: ServerConfig) -> bool {
    &&& a.web_server == b.web_server
    &&& a.auth == b.auth
    &&& a.transport == b.transport
}

/// The client settings that merging leaves alone.
pub open spec fn client_rest_unchanged(a: ClientConfig, b: ClientConfig) -> bool {
    &&& a.web_server == b.web_server
    &&& a.auth == b.auth
    &&& a.transport == b.transport
}

/// The patterns of files that two files name, those of the first before those of the
/// second.
pub open spec fn includes_joined(
    first: Option<Vec<String>>,
    second: Option<Vec<String>>,
    joined: Option<Vec<String>>,
) -> bool {
    match (first, second) {
        (Some(a), Some(b)) => joined matches Some(c) && c@ == a@ + b@,
        (Some(_), None) => joined == first,
        (None, _) => joined == second,
    }
}

/// `merged` is what merging `source` into `target` gives: the single values that
/// `source` gives take the place of those of `target`, and its lists follow those of
/// `target`.
pub open spec fn server_merged(
    target: ServerConfig,
    source: ServerConfig,
    merged: ServerConfig,
) -> bool {
    &&& merged.bind_addr == (if source.bind_addr@.len() > 0 {
        source.bind_addr
    } else {
        target.bind_addr
    })
    &&& merged.bind_port == (if source.bind_port != 0 {
        source.bind_port
    } else {
        target.bind_port
    })
    &&& merged.kcp_bind_port == first_given(source.kcp_bind_port, target.kcp_bind_port)
    &&& merged.quic_bind_port == first_given(source.quic_bind_port, target.quic_bind_port)
    &&& merged.vhost_http_port == first_given(source.vhost_http_port, target.vhost_http_port)
    &&& merged.vhost_https_port == first_given(source.vhost_https_port, target.vhost_https_port)
    &&& merged.tcpmux_http_connect_port == first_given(
        source.tcpmux_http_connect_port,
        target.tcpmux_http_connect_port,
    )
    &&& merged.work_conn_port == first_given(source.work_conn_port, target.work_conn_port)
    &&& merged.max_ports_per_user == first_given(
        source.max_ports_per_user,
        target.max_ports_per_user,
    )
    &&& merged.custom_404_page == first_given(source.custom_404_page, target.custom_404_page)
    &&& merged.allow_ports@ == target.allow_ports@ + source.allow_ports@
    &&& includes_joined(target.includes, source.includes, merged.includes)
    &&& merged.proxies@ == target.proxies@ + source.proxies@
    &&& server_rest_unchanged(merged, target)
}

/// `merged` is what merging `source` into `target` gives, for clients.
pub open spec fn client_merged(
    target: ClientConfig,
    source: ClientConfig,
    merged: ClientConfig,
) -> bool {
    &&& merged.server_addr == (if source.server_addr@.len() > 0 {
        source.server_addr
    } else {
        target.server_addr
    })
    &&& merged.server_port == (if source.server_port != 0 {
        source.server_port
    } else {
        target.server_port
    })
    &&& merged.user == first_given(source.user, target.user)
    &&& merged.client_id == first_given(source.client_id, target.client_id)
    &&& merged.work_conn_port == first_given(source.work_conn_port, target.work_conn_port)
    &&& includes_joined(target.includes, source.includes, merged.includes)
    &&& merged.proxies@ == target.proxies@ + source.proxies@
    &&& merged.visitors@ == target.visitors@ + source.visitors@
    &&& client_rest_unchanged(merged, target)
}

/// The text values of a map of strings.
pub open spec fn text_values(m: Map<Seq<char>, String>) -> Map<Seq<char>, Seq<char>> {
    m.map_values(|v: String| v@)
}

/// Loads and combines configuration files.
pub struct ConfigLoader;

impl ConfigLoader {
    /// Merges `source` into `target`.
    pub fn merge_server_config(target: &mut ServerConfig, source: ServerConfig)
        ensures
            server_merged(*old(target), source, *final(target)),
    {
        let mut source = source;
        if !source.bind_addr.as_str().is_empty() {
            target.bind_addr = source.bind_addr;
        }
        if source.bind_port != 0 {
            target.bind_port = source.bind_port;
        }
        if source.kcp_bind_port.is_some() {
            target.kcp_bind_port = source.kcp_bind_port;
        }
        if source.quic_bind_port.is_some() {
            target.quic_bind_port = source.quic_bind_port;
        }
        if source.vhost_http_port.is_some() {
            target.vhost_http_port = source.vhost_http_port;
        }
        if source.vhost_https_port.is_some() {
            target.vhost_https_port = source.vhost_https_port;
        }
        if source.tcpmux_http_connect_port.is_some() {
            target.tcpmux_http_connect_port = source.tcpmux_http_connect_port;
        }
        if source.work_conn_port.is_some() {
            target.work_conn_port = source.work_conn_port;
        }
        if source.max_ports_per_user.is_some() {
            target.max_ports_per_user = source.max_ports_per_user;
        }
        if source.custom_404_page.is_some() {
            target.custom_404_page = source.custom_404_page;
        }
        target.allow_ports.append(&mut source.allow_ports);
        Self::join_includes(&mut target.includes, source.includes);
        target.proxies.append(&mut source.proxies);
    }

    fn join_includes(target: &mut Option<Vec<String>>, source: Option<Vec<String>>)
        ensures
            includes_joined(*old(target), source, *final(target)),
    {
        if let Some(more) = source {
            let mut more = more;
            match target {
                Some(list) => {
                    list.append(&mut more);
                },
                None => {
                    *target = Some(more);
                },
            }
        }
    }

    /// Merges `source` into `target`.
    pub fn merge_client_config(target: &mut ClientConfig, source: ClientConfig)
        ensures
            client_merged(*old(target), source, *final(target)),
    {
        let mut source = source;
        if !source.server_addr.as_str().is_empty() {
            target.server_addr = source.server_addr;
        }
        if source.server_port != 0 {
            target.server_port = source.server_port;
        }
        if source.user.is_some() {
            target.user = source.user;
        }
        if source.client_id.is_some() {
            target.client_id = source.client_id;
        }
        if source.work_conn_port.is_some() {
            target.work_conn_port = source.work_conn_port;
        }
        Self::join_includes(&mut target.includes, source.includes);
        target.proxies.append(&mut source.proxies);
        target.visitors.append(&mut source.visitors);
    }

    /// A server needs a port to listen on.
    pub fn validate_server_config(config: &ServerConfig) -> (r: Result<(), ConfigProblem>)
        ensures
            r is Ok == (config.bind_port != 0),
            r matches Err(e) ==> e == ConfigProblem::BindPortRequired,
    {
        if config.bind_port == 0 {
            return Err(ConfigProblem::BindPortRequired);
        }
        Ok(())
    }

    /// A client needs the address and the port of its server.
    pub fn validate_client_config(config: &ClientConfig) -> (r: Result<(), ConfigProblem>)
        ensures
            r is Ok == (config.server_addr@.len() > 0 && config.server_port != 0),
            r matches Err(e) ==> e == (if config.server_addr@.len() == 0 {
                ConfigProblem::ServerAddrRequired
            } else {
                ConfigProblem::ServerPortRequired
            }),
    {
        if config.server_addr.as_str().is_empty() {
            return Err(ConfigProblem::ServerAddrRequired);
        }
        if config.server_port == 0 {
            return Err(ConfigProblem::ServerPortRequired);
        }
        Ok(())
    }

    /// The configuration that a file gives: the files that it names are merged in
    /// order, then references are replaced, then the result is validated.
    pub fn load_server_config(
        parsed: ServerConfig,
        included: Vec<ServerConfig>,
        env: &NameMap<String>,
        limit: usize,
    ) -> (r: Result<ServerConfig, ConfigProblem>)
        ensures
            exists|merged: ServerConfig| #[trigger]
                merged_all(parsed, included@, merged) && match r {
                    Ok(config) => server_expanded(merged, expansion_of(*env, limit), config)
                        && config.bind_port != 0,
                    Err(e) => if !server_expands(merged, expansion_of(*env, limit)) {
                        e == ConfigProblem::EndlessReferences
                    } else {
                        merged.bind_port == 0 && e == ConfigProblem::BindPortRequired
                    },
                },
    {
        let mut config = merge_all(parsed, included);
        let ghost merged = config;
        if !Self::replace_environment_variables(&mut config, env, limit) {
            return Err(ConfigProblem::EndlessReferences);
        }
        match Self::validate_server_config(&config) {
            Err(e) => Err(e),
            Ok(_) => Ok(config),
        }
    }

    /// The same for a client.
    pub fn load_client_config(
        parsed: ClientConfig,
        included: Vec<ClientConfig>,
        env: &NameMap<String>,
        limit: usize,
    ) -> (r: Result<ClientConfig, ConfigProblem>)
        ensures
            exists|merged: ClientConfig| #[trigger]
                merged_all(parsed, included@, merged) && match r {
                    Ok(config) => client_expanded(merged, expansion_of(*env, limit), config)
                        && config.server_addr@.len() > 0 && config.server_port != 0,
                    Err(e) => if !client_expands(merged, expansion_of(*env, limit)) {
                        e == ConfigProblem::EndlessReferences
                    } else {
                        let addr = expanded(
                            merged.server_addr@,
                            text_values(env@),
                            limit as nat,
                        )->0;
                        if addr.len() == 0 {
                            e == ConfigProblem::ServerAddrRequired
                        } else {
                            merged.server_port == 0 && e == ConfigProblem::ServerPortRequired
                        }
                    },
                },
    {
        let mut config = merge_all(parsed, included);
        let ghost merged = config;
        if !Self::replace_environment_variables_client(&mut config, env, limit) {
            return Err(ConfigProblem::EndlessReferences);
        }
        match Self::validate_client_config(&config) {
            Err(e) => Err(e),
            Ok(_) => Ok(config),
        }
    }
}

/// Settings that can be spread over several files.
pub trait Merge: Sized {
    /// `merged` is what merging `source` into `target` gives.
    spec fn merged(target: Self, source: Self, merged: Self) -> bool;

    /// Merges `source` into these settings.
    fn merge(&mut self, source: Self)
        ensures
            Self::merged(*old(self), source, *final(self)),
    ;
}

impl Merge for ServerConfig {
    open spec fn merged(target: Self, source: Self, merged: Self) -> bool {
        server_merged(target, source, merged)
    }

    fn merge(&mut self, source: Self) {
        ConfigLoader::merge_server_config(self, source)
    }
}

impl Merge for ClientConfig {
    open spec fn merged(target: Self, source: Self, merged: Self) -> bool {
        client_merged(target, source, merged)
    }

    fn merge(&mut self, source: Self) {
        ConfigLoader::merge_client_config(self, source)
    }
}

/// `merged` is what merging each of `sources` in turn into `start` gives.
pub open spec fn merged_all<C: Merge>(start: C, sources: Seq<C>, merged: C) -> bool
    decreases sources.len(),
{
    if sources.len() == 0 {
        merged == start
    } else {
        exists|mid: C|
            merged_all(start, sources.drop_last(), mid) && #[trigger] C::merged(
                mid,
                sources.last(),
                merged,
            )
    }
}

/// Merges each of `sources` in turn into `start`.
pub fn merge_all<C: Merge>(start: C, sources: Vec<C>) -> (merged: C)
    ensures
        merged_all(start, sources@, merged),
{
    let ghost all = sources@;
    let mut merged = start;
    let mut rest = sources;
    assert(all.skip(0) == all);
    while rest.len() > 0
        invariant
            rest@.len() <= all.len(),
            rest@ == all.skip(all.len() - rest@.len()),
            merged_all(start, all.take(all.len() - rest@.len()), merged),
        decreases rest.len(),
    {
        let ghost done = all.len() - rest@.len();
        let ghost mid = merged;
        let next = rest.remove(0);
        merged.merge(next);
        proof {
            let upto = all.take(done + 1);
            assert(upto.drop_last() == all.take(done));
            assert(upto.last() == next);
            assert(merged_all(start, upto.drop_last(), mid) && C::merged(mid, next, merged));
        }
    }
    assert(all.take(all.len() as int) == all);
    merged
}

/// A file that gives none of the values and lists that are merged changes nothing.
pub proof fn law_merge_of_nothing(target: ServerConfig, source: ServerConfig, merged: ServerConfig)
    requires
        server_merged(target, source, merged),
        source.bind_addr@.len() == 0,
        source.bind_port == 0,
        source.kcp_bind_port is None,
        source.quic_bind_port is None,
        source.vhost_http_port is None,
        source.vhost_https_port is None,
        source.tcpmux_http_connect_port is None,
        source.work_conn_port is None,
        source.max_ports_per_user is None,
        source.custom_404_page is None,
        source.allow_ports@.len() == 0,
        source.includes is None,
        source.proxies@.len() == 0,
    ensures
        merged == (ServerConfig {
            allow_ports: merged.allow_ports,
            proxies: merged.proxies,
            ..target
        }),
        merged.allow_ports@ == target.allow_ports@,
        merged.proxies@ == target.proxies@,
{
    assert(target.allow_ports@ + source.allow_ports@ == target.allow_ports@);
    assert(target.proxies@ + source.proxies@ == target.proxies@);
}

/// Merging one file after another keeps the proxies, and the allowed ports, in the
/// order of the files.
pub proof fn law_merge_keeps_proxy_order(
    a: ServerConfig,
    b: ServerConfig,
    c: ServerConfig,
    ab: ServerConfig,
    abc: ServerConfig,
)
    requires
        server_merged(a, b, ab),
        server_merged(ab, c, abc),
    ensures
        abc.proxies@ == a.proxies@ + b.proxies@ + c.proxies@,
        abc.allow_ports@ == a.allow_ports@ + b.allow_ports@ + c.allow_ports@,
{
}

} // verus!
