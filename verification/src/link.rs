//! A client's connections to its server: the control connection, from login to
//! reconnecting, and the work connections that the server asks for.
use crate::auth::{
    chars_given, config_hashable, generate_visitor_sign, generate_work_conn_sign_key, token_key,
    visitor_signature, work_conn_sign, work_conn_text, AuthError, AuthManager, AuthVerifier,
};
use crate::client::{
    build_client_tls_config, client_tls_of, find_proxy, is_other, proxy_index, work_conn_port_of,
    ClientError, ClientTls,
};
use crate::codec::hashable;
use crate::config::{AuthConfig, ClientConfig, ProxyConfig, TransportConfig, VisitorConfig};
use crate::message::{
    is_nat_info, says_logged_in, says_running, DisconnectMsg, LoginMsg, LoginRespMsg, Message,
    NewWorkConnMsg, PingMsg, StcpVisitorMsg, UdpPacketMsg, XtcpNatInfoMsg,
};
use crate::names::NameMap;
use crate::server::{
    auth_problem, has_manager, host_port, is_manager_for, join_host_port, make_auth_manager,
    tls_source_of, web_addr_of, work_port,
};
use crate::text::{decimal, push_decimal, same, texts};
use vstd::prelude::*;
use vstd::string::*;
use vstd::utf8::encode_utf8;

verus! {

/// A ping is sent when the last one is older than this many milliseconds.
pub const PING_INTERVAL_MS: u64 = 10_000;

/// A server that did not answer a ping for longer than this many milliseconds is
/// gone.
pub const PONG_TIMEOUT_MS: u64 = 90_000;

/// The longest pause before a client connects again, in milliseconds.
pub const MAX_RECONNECT_DELAY_MS: u64 = 30_000;

/// How the control connection is made.
#[derive(Debug)]
pub enum ControlTransport {
    Kcp { addr: String },
    WebSocket { url: String },
    /// One TCP connection that carries the control connection and all work
    /// connections.
    Mux { addr: String, secure: bool },
    Tls { addr: String },
    Tcp { addr: String },
}

/// Whether the control connection is encrypted: it is, unless the settings say
/// otherwise.
pub open spec fn uses_tls(t: TransportConfig) -> bool {
    t.tls matches Some(tls) ==> tls.enable
}

/// The address of the WebSocket of a server.
pub open spec fn websocket_url(secure: bool, addr: Seq<char>, port: u16) -> Seq<char> {
    (if secure {
        "wss"@
    } else {
        "ws"@
    }) + "://"@ + host_port(addr, port) + "/ws"@
}

/// How the control connection is made with these settings.
pub open spec fn transport_of(c: ClientConfig, t: ControlTransport) -> bool {
    let server = host_port(c.server_addr@, c.server_port);
    if c.transport.protocol@ == "kcp"@ {
        t matches ControlTransport::Kcp { addr } && addr@ == server
    } else if c.transport.protocol@ == "websocket"@ {
        t matches ControlTransport::WebSocket { url } && url@ == websocket_url(
            uses_tls(c.transport),
            c.server_addr@,
            c.server_port,
        )
    } else if c.transport.tcp_mux {
        t matches ControlTransport::Mux { addr, secure } && addr@ == server && secure == uses_tls(
            c.transport,
        )
    } else if uses_tls(c.transport) {
        t matches ControlTransport::Tls { addr } && addr@ == server
    } else {
        t matches ControlTransport::Tcp { addr } && addr@ == server
    }
}

/// How the control connection is made.
pub fn choose_transport(config: &ClientConfig) -> (t: ControlTransport)
    ensures
        transport_of(*config, t),
{
    let secure: bool = match &config.transport.tls {
        Some(tls) => tls.enable,
        None => true,
    };
    let protocol: &str = config.transport.protocol.as_str();
    let addr: String = join_host_port(config.server_addr.as_str(), config.server_port);
    if same(protocol, "kcp") {
        return ControlTransport::Kcp { addr };
    }
    if same(protocol, "websocket") {
        let mut url: String = if secure {
            "wss".to_string()
        } else {
            "ws".to_string()
        };
        url.append("://");
        url.append(addr.as_str());
        url.append("/ws");
        return ControlTransport::WebSocket { url };
    }
    if config.transport.tcp_mux {
        return ControlTransport::Mux { addr, secure };
    }
    if secure {
        ControlTransport::Tls { addr }
    } else {
        ControlTransport::Tcp { addr }
    }
}

/// How a connection that has to be encrypted is encrypted: as the settings say, and
/// not at all where they switch encryption off.
pub open spec fn required_tls(
    c: ClientConfig,
    problem: Seq<char>,
    r: Result<ClientTls, ClientError>,
) -> bool {
    if client_tls_of(c.transport) is Disabled {
        r matches Err(e) && is_other(e, problem)
    } else {
        r == Ok::<ClientTls, ClientError>(client_tls_of(c.transport))
    }
}

/// How a connection that carries everything is encrypted.
pub fn mux_tls(config: &ClientConfig) -> (r: Result<ClientTls, ClientError>)
    ensures
        required_tls(*config, "tcp_mux requires TLS but client tls is disabled"@, r),
{
    match build_client_tls_config(config) {
        ClientTls::Disabled => Err(
            ClientError::Other("tcp_mux requires TLS but client tls is disabled".to_string()),
        ),
        tls => Ok(tls),
    }
}

/// A given text, else another.
pub open spec fn text_or(t: Option<String>, other: Seq<char>) -> Seq<char> {
    match t {
        Some(t) => t@,
        None => other,
    }
}

fn clone_or(t: &Option<String>, other: &str) -> (r: String)
    ensures
        r@ == text_or(*t, other@),
{
    match t {
        Some(t) => t.clone(),
        None => other.to_string(),
    }
}

/// `m` introduces a client with these settings.
pub open spec fn introduces(
    m: LoginMsg,
    c: ClientConfig,
    arch: Seq<char>,
    os: Seq<char>,
    hostname: Seq<char>,
    run_id: Seq<char>,
    timestamp: i64,
) -> bool {
    &&& m.arch@ == arch
    &&& m.os@ == os
    &&& m.hostname@ == hostname
    &&& m.pool_count == c.transport.pool_count
    &&& m.user@ == text_or(c.user, Seq::<char>::empty())
    &&& m.client_id@ == text_or(c.client_id, hostname)
    &&& m.version@ == "0.1.0"@
    &&& m.timestamp == timestamp
    &&& m.run_id@ == run_id
    &&& m.token@ == text_or(c.auth.token, Seq::<char>::empty())
    &&& m.metas@ == Map::<Seq<char>, String>::empty()
    &&& m.client_spec is None
}

/// The message by which a client introduces itself.
pub fn login_message(
    config: &ClientConfig,
    arch: &str,
    os: &str,
    hostname: &str,
    run_id: &str,
    timestamp: i64,
) -> (m: Message)
    ensures
        m matches Message::Login(l) && introduces(
            l,
            *config,
            arch@,
            os@,
            hostname@,
            run_id@,
            timestamp,
        ),
{
    proof {
        reveal_strlit("");
        assert(""@ =~= Seq::<char>::empty());
    }
    Message::Login(
        LoginMsg {
            arch: arch.to_string(),
            os: os.to_string(),
            hostname: hostname.to_string(),
            pool_count: config.transport.pool_count,
            user: clone_or(&config.user, ""),
            client_id: clone_or(&config.client_id, hostname),
            version: "0.1.0".to_string(),
            timestamp,
            run_id: run_id.to_string(),
            token: clone_or(&config.auth.token, ""),
            metas: NameMap::new(),
            client_spec: None,
        },
    )
}

/// A client that logged in.
#[derive(Debug)]
pub struct LoggedIn {
    pub run_id: String,
    /// Whether work connections are to be encrypted.
    pub work_conn_tls: bool,
}

/// What the answer to a login means.
pub fn check_login_answer(msg: Message) -> (r: Result<LoggedIn, ClientError>)
    ensures
        r is Ok == says_logged_in(msg),
        match msg {
            Message::LoginResp(m) => if m.error@.len() > 0 {
                r matches Err(e) && is_other(e, m.error@)
            } else {
                r matches Ok(l) && l.run_id == m.run_id && l.work_conn_tls == m.work_conn_tls
            },
            _ => r matches Err(e) && is_other(e, "unexpected message"@),
        },
{
    match msg {
        Message::LoginResp(m) => {
            if !m.error.as_str().is_empty() {
                return Err(ClientError::Other(m.error));
            }
            Ok(LoggedIn { run_id: m.run_id, work_conn_tls: m.work_conn_tls })
        },
        _ => Err(ClientError::Other("unexpected message".to_string())),
    }
}

/// What the answer to an offered proxy means.
pub fn check_register_answer(proxy_name: &str, msg: Message) -> (r: Result<(), ClientError>)
    ensures
        r is Ok == says_running(msg),
        match msg {
            Message::RegisterProxyResp(m) => if m.error@.len() > 0 {
                r matches Err(e) && is_other(
                    e,
                    "Failed to register proxy "@ + proxy_name@ + ": "@ + m.error@,
                )
            } else {
                r is Ok
            },
            _ => r matches Err(e) && is_other(e, "Unexpected message"@),
        },
{
    match msg {
        Message::RegisterProxyResp(m) => {
            if !m.error.as_str().is_empty() {
                let mut text: String = "Failed to register proxy ".to_string();
                text.append(proxy_name);
                text.append(": ");
                text.append(m.error.as_str());
                return Err(ClientError::Other(text));
            }
            Ok(())
        },
        _ => Err(ClientError::Other("Unexpected message".to_string())),
    }
}

/// The message by which a client takes its leave.
pub fn disconnect_message() -> (m: Message)
    ensures
        m matches Message::Disconnect(d) && d.reason@ == "client_shutdown"@,
{
    Message::Disconnect(DisconnectMsg { reason: "client_shutdown".to_string() })
}

/// What has to be done after a message of the server.
pub enum ClientAction {
    /// A work connection for this proxy is opened.
    OpenWorkConn { proxy_name: String },
    /// This datagram is sent to the local service, and the answer to the visitor.
    ForwardUdp { proxy_name: String, local_addr: String, data: Vec<u8>, client_addr: Option<String> },
    /// This is sent to the server.
    Send { message: Message },
    /// These addresses are tried at once.
    PunchAll { addrs: Vec<String> },
    /// These addresses are tried one after the other, until one answers.
    PunchInTurn { addrs: Vec<String> },
}

/// Those of two addresses that are given, in this order.
pub open spec fn given_addrs(public: Seq<char>, local: Seq<char>) -> Seq<Seq<char>> {
    (if public.len() > 0 {
        seq![public]
    } else {
        seq![]
    }) + (if local.len() > 0 {
        seq![local]
    } else {
        seq![]
    })
}

/// Those of two addresses that are given, in this order.
pub fn punch_addrs(public: &str, local: &str) -> (addrs: Vec<String>)
    ensures
        texts(addrs@) == given_addrs(public@, local@),
{
    let mut addrs: Vec<String> = Vec::new();
    if !public.is_empty() {
        addrs.push(public.to_string());
    }
    if !local.is_empty() {
        addrs.push(local.to_string());
    }
    assert(texts(addrs@) =~= given_addrs(public@, local@));
    addrs
}

/// The local address of a proxy.
pub open spec fn local_addr_of(p: ProxyConfig) -> Seq<char> {
    host_port(p.local_ip@, p.local_port)
}

/// What a client does after a message of the server.
pub open spec fn client_actions(
    msg: Message,
    run_id: Seq<char>,
    proxies: Seq<ProxyConfig>,
    actions: Seq<ClientAction>,
) -> bool {
    match msg {
        Message::ReqWorkConn(m) => actions == seq![
            ClientAction::OpenWorkConn { proxy_name: m.proxy_name },
        ],
        Message::UdpPacket(m) => {
            let i = proxy_index(proxies, m.proxy_name@) as int;
            if i < proxies.len() {
                actions.len() == 1 && (actions[0] matches ClientAction::ForwardUdp {
                    proxy_name,
                    local_addr,
                    data,
                    client_addr,
                } && proxy_name == m.proxy_name && local_addr@ == local_addr_of(proxies[i]) && data
                    == m.data && client_addr == m.client_addr)
            } else {
                actions.len() == 0
            }
        },
        Message::XtcpNatInfo(m) => {
            let i = proxy_index(proxies, m.proxy_name@) as int;
            let addrs = given_addrs(m.public_addr@, m.local_addr@);
            let own: nat = if i < proxies.len() {
                1
            } else {
                0
            };
            let punch: nat = if addrs.len() > 0 {
                1
            } else {
                0
            };
            &&& actions.len() == own + punch
            &&& own == 1 ==> (actions[0] matches ClientAction::Send { message } && is_nat_info(
                message,
                m.proxy_name@,
                run_id,
                "unknown"@,
                local_addr_of(proxies[i]),
                Seq::<char>::empty(),
            ))
            &&& punch == 1 ==> (actions[own as int] matches ClientAction::PunchAll { addrs: a }
                && texts(a@) == addrs)
        },
        Message::XtcpHolePunch(m) => actions.len() == 1 && (
        actions[0] matches ClientAction::PunchInTurn { addrs } && texts(addrs@) == given_addrs(
            m.peer_public_addr@,
            m.peer_local_addr@,
        )),
        _ => actions.len() == 0,
    }
}

/// The control connection of a client that logged in. Times are milliseconds on a
/// clock that never runs back.
pub struct ClientControl {
    pub run_id: String,
    pub last_ping_time: u64,
    pub last_pong_time: u64,
    /// Whether work connections are to be encrypted.
    pub work_conn_tls: bool,
}

impl ClientControl {
    pub fn new(login: LoggedIn, now: u64) -> (c: Self)
        ensures
            c.run_id == login.run_id,
            c.work_conn_tls == login.work_conn_tls,
            c.last_ping_time == now,
            c.last_pong_time == now,
    {
        ClientControl {
            run_id: login.run_id,
            last_ping_time: now,
            last_pong_time: now,
            work_conn_tls: login.work_conn_tls,
        }
    }

    /// The ping that is due, if one is.
    pub fn due_ping(&mut self, now: u64, timestamp: i64) -> (m: Option<Message>)
        ensures
            if now > old(self).last_ping_time && now - old(self).last_ping_time > PING_INTERVAL_MS {
                &&& m matches Some(Message::Ping(p))
                &&& p.timestamp == timestamp
                &&& *final(self) == (ClientControl { last_ping_time: now, ..*old(self) })
            } else {
                m is None && *final(self) == *old(self)
            },
    {
        if now > self.last_ping_time && now - self.last_ping_time > PING_INTERVAL_MS {
            self.last_ping_time = now;
            Some(Message::Ping(PingMsg { timestamp }))
        } else {
            None
        }
    }

    /// Whether a server that sent nothing for a while is gone.
    pub fn pong_expired(&self, now: u64) -> (gone: bool)
        ensures
            gone == (now > self.last_pong_time && now - self.last_pong_time > PONG_TIMEOUT_MS),
    {
        now > self.last_pong_time && now - self.last_pong_time > PONG_TIMEOUT_MS
    }

    /// Handles a message of the server.
    pub fn handle_message(&mut self, config: &ClientConfig, msg: Message, now: u64) -> (actions: Vec<
        ClientAction,
    >)
        ensures
            *final(self) == (if msg is Pong {
                (ClientControl { last_pong_time: now, ..*old(self) })
            } else {
                *old(self)
            }),
            client_actions(msg, old(self).run_id@, config.proxies@, actions@),
    {
        let mut actions: Vec<ClientAction> = Vec::new();
        match msg {
            Message::Pong(_) => {
                self.last_pong_time = now;
            },
            Message::ReqWorkConn(m) => {
                actions.push(ClientAction::OpenWorkConn { proxy_name: m.proxy_name });
            },
            Message::UdpPacket(m) => {
                if let Some(p) = find_proxy(config, m.proxy_name.as_str()) {
                    let local_addr: String = join_host_port(p.local_ip.as_str(), p.local_port);
                    actions.push(
                        ClientAction::ForwardUdp {
                            proxy_name: m.proxy_name,
                            local_addr,
                            data: m.data,
                            client_addr: m.client_addr,
                        },
                    );
                }
            },
            Message::XtcpNatInfo(m) => {
                if let Some(p) = find_proxy(config, m.proxy_name.as_str()) {
                    let message = Message::XtcpNatInfo(
                        XtcpNatInfoMsg {
                            proxy_name: m.proxy_name.clone(),
                            run_id: self.run_id.clone(),
                            nat_type: "unknown".to_string(),
                            local_addr: join_host_port(p.local_ip.as_str(), p.local_port),
                            public_addr: String::new(),
                        },
                    );
                    actions.push(ClientAction::Send { message });
                }
                let addrs: Vec<String> = punch_addrs(m.public_addr.as_str(), m.local_addr.as_str());
                assert(texts(addrs@).len() == addrs@.len());
                if addrs.len() > 0 {
                    actions.push(ClientAction::PunchAll { addrs });
                }
            },
            Message::XtcpHolePunch(m) => {
                let addrs: Vec<String> = punch_addrs(
                    m.peer_public_addr.as_str(),
                    m.peer_local_addr.as_str(),
                );
                actions.push(ClientAction::PunchInTurn { addrs });
            },
            _ => {},
        }
        actions
    }
}

/// The message that carries the answer of a local service to a datagram.
pub fn udp_answer(proxy_name: String, data: Vec<u8>, client_addr: Option<String>) -> (m: Message)
    ensures
        m == Message::UdpPacket((UdpPacketMsg { proxy_name, data, client_addr })),
{
    Message::UdpPacket(UdpPacketMsg { proxy_name, data, client_addr })
}

/// How a work connection is made.
#[derive(Debug)]
pub enum WorkRoute {
    /// As a stream of the connection that carries everything.
    Mux,
    /// As a connection of its own to this address.
    Direct { addr: String, secure: bool },
}

/// How a work connection is made.
pub fn work_route(config: &ClientConfig, work_conn_tls: bool, has_mux: bool) -> (r: WorkRoute)
    requires
        config.work_conn_port is None ==> config.server_port + 1000 <= u16::MAX,
    ensures
        if has_mux {
            r is Mux
        } else {
            r matches WorkRoute::Direct { addr, secure } && secure == work_conn_tls && addr@
                == host_port(
                config.server_addr@,
                work_port(config.work_conn_port, config.server_port),
            )
        },
{
    if has_mux {
        return WorkRoute::Mux;
    }
    let addr: String = join_host_port(config.server_addr.as_str(), work_conn_port_of(config));
    WorkRoute::Direct { addr, secure: work_conn_tls }
}

/// How a work connection of its own is encrypted.
pub fn work_conn_tls(config: &ClientConfig) -> (r: Result<ClientTls, ClientError>)
    ensures
        required_tls(
            *config,
            "server requires TLS work conn but client tls is disabled"@,
            r,
        ),
{
    match build_client_tls_config(config) {
        ClientTls::Disabled => Err(
            ClientError::Other(
                "server requires TLS work conn but client tls is disabled".to_string(),
            ),
        ),
        tls => Ok(tls),
    }
}

/// The proxy that a work connection is for.
pub fn work_conn_proxy<'a>(config: &'a ClientConfig, proxy_name: &str) -> (r: Result<
    &'a ProxyConfig,
    ClientError,
>)
    ensures
        match r {
            Ok(p) => proxy_index(config.proxies@, proxy_name@) < config.proxies@.len() && *p
                == config.proxies@[proxy_index(config.proxies@, proxy_name@) as int],
            Err(e) => proxy_index(config.proxies@, proxy_name@) == config.proxies@.len()
                && is_other(e, "Proxy config not found: "@ + proxy_name@),
        },
{
    match find_proxy(config, proxy_name) {
        Some(p) => Ok(p),
        None => Err(
            ClientError::Other("Proxy config not found: ".to_string().concat(proxy_name)),
        ),
    }
}

/// The signature of a client's work connections; empty without a token.
pub open spec fn client_sign(token: Option<String>, run_id: Seq<char>) -> Seq<char> {
    match token {
        Some(t) => work_conn_sign(token_key(t@), run_id),
        None => seq![],
    }
}

/// The message by which a client announces a work connection.
pub fn work_conn_message(
    config: &ClientConfig,
    proxy_name: &str,
    run_id: &str,
    timestamp: i64,
) -> (m: Message)
    requires
        config_hashable(config.auth),
        hashable(work_conn_text(run_id@)),
    ensures
        m matches Message::NewWorkConn(n) && n.run_id@ == run_id@ && n.proxy_name@ == proxy_name@
            && n.timestamp == timestamp && n.sign_key@ == client_sign(config.auth.token, run_id@)
            && !n.use_encryption && !n.use_compression,
{
    let sign_key: String = match &config.auth.token {
        Some(token) => generate_work_conn_sign_key(token.as_str(), run_id),
        None => String::new(),
    };
    Message::NewWorkConn(
        NewWorkConnMsg {
            run_id: run_id.to_string(),
            proxy_name: proxy_name.to_string(),
            timestamp,
            sign_key,
            use_encryption: false,
            use_compression: false,
        },
    )
}

/// The visitor that a work connection is to serve.
#[derive(Debug)]
pub struct Visitor {
    pub addr: String,
    pub port: u16,
}

/// What the answer to the announcement of a work connection means.
pub fn check_start_answer(msg: Message) -> (r: Result<Visitor, ClientError>)
    ensures
        match msg {
            Message::StartWorkConn(m) => if m.error@.len() > 0 {
                r matches Err(e) && is_other(e, "Server error: "@ + m.error@)
            } else {
                r matches Ok(v) && v.addr == m.src_addr && v.port == m.src_port
            },
            _ => r matches Err(e) && is_other(e, "Unexpected response from server"@),
        },
{
    match msg {
        Message::StartWorkConn(m) => {
            if !m.error.as_str().is_empty() {
                return Err(
                    ClientError::Other("Server error: ".to_string().concat(m.error.as_str())),
                );
            }
            Ok(Visitor { addr: m.src_addr, port: m.src_port })
        },
        _ => Err(ClientError::Other("Unexpected response from server".to_string())),
    }
}

/// The line of the PROXY protocol that tells a local service whom it serves.
pub open spec fn proxy_header_text(
    src_addr: Seq<char>,
    src_port: u16,
    local_ip: Seq<char>,
    local_port: u16,
) -> Seq<char> {
    "PROXY TCP4 "@ + src_addr + " "@ + local_ip + " "@ + decimal(src_port as nat) + " "@ + decimal(
        local_port as nat,
    ) + "\r\n"@
}

/// The line of the PROXY protocol, where the proxy asks for it and the visitor is
/// known.
pub fn proxy_header(p: &ProxyConfig, visitor: &Visitor) -> (h: Option<String>)
    ensures
        match h {
            Some(t) => p.proxy_protocol == Some(true) && visitor.port > 0 && t@
                == proxy_header_text(visitor.addr@, visitor.port, p.local_ip@, p.local_port),
            None => p.proxy_protocol != Some(true) || visitor.port == 0,
        },
{
    let enabled: bool = match p.proxy_protocol {
        Some(b) => b,
        None => false,
    };
    if !enabled || visitor.port == 0 {
        return None;
    }
    let mut t: String = "PROXY TCP4 ".to_string();
    t.append(visitor.addr.as_str());
    t.append(" ");
    t.append(p.local_ip.as_str());
    t.append(" ");
    push_decimal(&mut t, visitor.port as u64);
    t.append(" ");
    push_decimal(&mut t, p.local_port as u64);
    t.append("\r\n");
    Some(t)
}

/// The answer to a visitor whose local service cannot be reached. The announced
/// length counts the error and 45 bytes more.
pub open spec fn bad_gateway(error: Seq<char>) -> Seq<char> {
    "HTTP/1.1 502 Bad Gateway\r\nContent-Type: text/plain\r\nContent-Length: "@ + decimal(
        encode_utf8(error).len() + 45,
    ) + "\r\n\r\nFailed to connect to local service after retries: "@ + error
}

/// The answer to a visitor whose local service cannot be reached. The announced length
/// has to fit in a number of 64 bits.
pub fn bad_gateway_text(error: &str) -> (t: String)
    requires
        encode_utf8(error@).len() + 45 <= u64::MAX,
    ensures
        t@ == bad_gateway(error@),
{
    let mut t: String =
        "HTTP/1.1 502 Bad Gateway\r\nContent-Type: text/plain\r\nContent-Length: ".to_string();
    push_decimal(&mut t, error.as_bytes().len() as u64 + 45);
    t.append("\r\n\r\nFailed to connect to local service after retries: ");
    t.append(error);
    t
}

/// Whether one of the visitors asks for a peer-to-peer connection to a proxy.
pub open spec fn asks_for_peer(visitors: Seq<VisitorConfig>, proxy_name: Seq<char>) -> bool {
    exists|i: int|
        0 <= i < visitors.len() && (#[trigger] visitors[i]).server_name@ == proxy_name
            && visitors[i].kind@ == "xtcp"@
}

/// Whether one of the visitors asks for a peer-to-peer connection to a proxy.
pub fn is_xtcp(config: &ClientConfig, proxy_name: &str) -> (b: bool)
    ensures
        b == asks_for_peer(config.visitors@, proxy_name@),
{
    let mut i: usize = 0;
    while i < config.visitors.len()
        invariant
            i <= config.visitors.len(),
            forall|k: int|
                0 <= k < i ==> !((#[trigger] config.visitors@[k]).server_name@ == proxy_name@
                    && config.visitors@[k].kind@ == "xtcp"@),
        decreases config.visitors.len() - i,
    {
        if same(config.visitors[i].server_name.as_str(), proxy_name) && same(
            config.visitors[i].kind.as_str(),
            "xtcp",
        ) {
            assert(config.visitors@[i as int].server_name@ == proxy_name@);
            return true;
        }
        i = i + 1;
    }
    false
}

/// The message by which a visitor looks for a peer; nothing where it does not ask
/// for a peer-to-peer connection.
pub fn visitor_nat_message(config: &ClientConfig, proxy_name: &str, run_id: &str) -> (m: Option<
    Message,
>)
    ensures
        m is Some == asks_for_peer(config.visitors@, proxy_name@),
        m matches Some(n) ==> is_nat_info(
            n,
            proxy_name@,
            run_id@,
            "unknown"@,
            Seq::<char>::empty(),
            Seq::<char>::empty(),
        ),
{
    if !is_xtcp(config, proxy_name) {
        return None;
    }
    Some(
        Message::XtcpNatInfo(
            XtcpNatInfoMsg {
                proxy_name: proxy_name.to_string(),
                run_id: run_id.to_string(),
                nat_type: "unknown".to_string(),
                local_addr: String::new(),
                public_addr: String::new(),
            },
        ),
    )
}

/// The first of the visitors that visits a proxy, or how many visitors there are.
pub open spec fn visitor_index(visitors: Seq<VisitorConfig>, proxy_name: Seq<char>) -> nat
    decreases visitors.len(),
{
    if visitors.len() == 0 || visitors[0].server_name@ == proxy_name {
        0
    } else {
        1 + visitor_index(visitors.drop_first(), proxy_name)
    }
}

/// The secret with which a proxy is visited.
pub open spec fn visiting_secret(
    visitors: Seq<VisitorConfig>,
    proxy_name: Seq<char>,
) -> Option<Seq<char>> {
    let i = visitor_index(visitors, proxy_name) as int;
    if i < visitors.len() {
        match visitors[i].secret_key {
            Some(s) => Some(s@),
            None => None,
        }
    } else {
        None
    }
}

/// The secret with which a proxy is visited.
fn secret_for<'a>(config: &'a ClientConfig, proxy_name: &str) -> (secret: Option<&'a str>)
    ensures
        chars_given(secret) == visiting_secret(config.visitors@, proxy_name@),
{
    let mut i: usize = 0;
    assert(config.visitors@.skip(0) == config.visitors@);
    while i < config.visitors.len()
        invariant
            i <= config.visitors.len(),
            visitor_index(config.visitors@, proxy_name@) == i + visitor_index(
                config.visitors@.skip(i as int),
                proxy_name@,
            ),
        decreases config.visitors.len() - i,
    {
        let ghost rest = config.visitors@.skip(i as int);
        if same(config.visitors[i].server_name.as_str(), proxy_name) {
            return match &config.visitors[i].secret_key {
                Some(s) => Some(s.as_str()),
                None => None,
            };
        }
        assert(rest.drop_first() == config.visitors@.skip(i + 1));
        i = i + 1;
    }
    None
}

/// The message by which a visitor asks for a secret TCP connection, signed with the
/// secret that it shares with the proxy.
pub fn stcp_visitor_message(
    config: &ClientConfig,
    proxy_name: &str,
    run_id: &str,
    timestamp: i64,
) -> (m: Message)
    ensures
        m matches Message::StcpVisitor(v) && v.proxy_name@ == proxy_name@ && v.run_id@ == run_id@
            && v.timestamp == timestamp && v.sign_key@ == visitor_signature(
            visiting_secret(config.visitors@, proxy_name@),
            run_id@,
            timestamp,
        ),
{
    Message::StcpVisitor(
        StcpVisitorMsg {
            proxy_name: proxy_name.to_string(),
            run_id: run_id.to_string(),
            timestamp,
            sign_key: generate_visitor_sign(secret_for(config, proxy_name), run_id, timestamp),
        },
    )
}

/// A local port through which a proxy of another client is reached.
#[derive(Debug)]
pub struct VisitorListener {
    pub bind_addr: String,
    pub proxy_name: String,
}

/// Whether a visitor listens on a local port.
pub open spec fn listens(v: VisitorConfig) -> bool {
    v.kind@ == "stcp"@ || v.kind@ == "xtcp"@
}

/// The visitors that listen on a local port.
pub open spec fn listening(visitors: Seq<VisitorConfig>) -> Seq<VisitorConfig> {
    visitors.filter(|v: VisitorConfig| listens(v))
}

/// The local ports that a client listens on for its visitors.
pub fn visitor_listeners(config: &ClientConfig) -> (list: Vec<VisitorListener>)
    ensures
        list@.len() == listening(config.visitors@).len(),
        forall|i: int|
            #![trigger list@[i]]
            0 <= i < list@.len() ==> list@[i].bind_addr@ == host_port(
                listening(config.visitors@)[i].bind_addr@,
                listening(config.visitors@)[i].bind_port,
            ) && list@[i].proxy_name@ == listening(config.visitors@)[i].server_name@,
{
    let mut list: Vec<VisitorListener> = Vec::new();
    let ghost test = |v: VisitorConfig| listens(v);
    let mut i: usize = 0;
    reveal(Seq::filter);
    while i < config.visitors.len()
        invariant
            i <= config.visitors.len(),
            test == (|v: VisitorConfig| listens(v)),
            list@.len() == config.visitors@.take(i as int).filter(test).len(),
            forall|k: int|
                #![trigger list@[k]]
                0 <= k < list@.len() ==> list@[k].bind_addr@ == host_port(
                    config.visitors@.take(i as int).filter(test)[k].bind_addr@,
                    config.visitors@.take(i as int).filter(test)[k].bind_port,
                ) && list@[k].proxy_name@ == config.visitors@.take(i as int).filter(
                    test,
                )[k].server_name@,
        decreases config.visitors.len() - i,
    {
        let v: &VisitorConfig = &config.visitors[i];
        proof {
            reveal(Seq::filter);
            let upto = config.visitors@.take(i + 1);
            assert(upto.drop_last() == config.visitors@.take(i as int));
            assert(upto.last() == *v);
        }
        if same(v.kind.as_str(), "stcp") || same(v.kind.as_str(), "xtcp") {
            list.push(
                VisitorListener {
                    bind_addr: join_host_port(v.bind_addr.as_str(), v.bind_port),
                    proxy_name: v.server_name.clone(),
                },
            );
        }
        i = i + 1;
    }
    assert(config.visitors@.take(i as int) == config.visitors@);
    list
}

/// The pause that follows a pause: a second after none, else twice as long, up to
/// half a minute.
pub open spec fn next_delay(delay: int) -> int {
    if delay == 0 {
        1_000
    } else if 2 * delay <= MAX_RECONNECT_DELAY_MS {
        2 * delay
    } else {
        MAX_RECONNECT_DELAY_MS as int
    }
}

/// When a client connects again.
pub struct Reconnect {
    delay: u64,
    logged_in: bool,
}

impl Reconnect {
    /// The pause after the next lost connection, in milliseconds.
    pub closed spec fn pause(self) -> int {
        self.delay as int
    }

    /// Whether a login has succeeded.
    pub closed spec fn has_logged_in(self) -> bool {
        self.logged_in
    }

    pub open spec fn wf(self) -> bool {
        0 <= self.pause() <= MAX_RECONNECT_DELAY_MS
    }

    pub fn new() -> (r: Self)
        ensures
            r.wf(),
            r.pause() == 0,
            !r.has_logged_in(),
    {
        Reconnect { delay: 0, logged_in: false }
    }

    /// The pause after the next lost connection, in milliseconds.
    pub fn delay_ms(&self) -> (ms: u64)
        ensures
            ms == self.pause(),
    {
        self.delay
    }

    /// A login succeeded.
    pub fn login_succeeded(&mut self)
        ensures
            final(self).wf(),
            final(self).pause() == 0,
            final(self).has_logged_in(),
    {
        self.delay = 0;
        self.logged_in = true;
    }

    /// A connection was lost, or a login failed: how long to wait, or nothing where
    /// the client gives up because it never could log in. A client waits for its
    /// pause and for up to a tenth of it more, so that clients do not all come back
    /// at once; `jitter` is that part.
    pub fn connection_lost(&mut self, jitter: u64) -> (wait: Option<u64>)
        requires
            old(self).wf(),
            jitter <= old(self).pause() / 10,
        ensures
            final(self).wf(),
            final(self).has_logged_in() == old(self).has_logged_in(),
            match wait {
                Some(ms) => old(self).has_logged_in() && ms == old(self).pause() + jitter
                    && final(self).pause() == next_delay(old(self).pause()),
                None => !old(self).has_logged_in() && *final(self) == *old(self),
            },
    {
        if !self.logged_in {
            return None;
        }
        let wait: u64 = self.delay + jitter;
        self.delay = if self.delay == 0 {
            1_000
        } else if self.delay * 2 <= MAX_RECONNECT_DELAY_MS {
            self.delay * 2
        } else {
            MAX_RECONNECT_DELAY_MS
        };
        Some(wait)
    }
}

/// The pause after `n` lost connections with no login between them.
pub open spec fn delay_after(n: nat) -> int
    decreases n,
{
    if n == 0 {
        0
    } else {
        next_delay(delay_after((n - 1) as nat))
    }
}

/// A client first connects again at once. While no login succeeds its pauses never
/// shrink, and they never exceed half a minute, which the seventh and all later ones
/// last.
pub proof fn law_pauses_grow_to_a_limit(n: nat)
    ensures
        delay_after(0) == 0,
        delay_after(n) <= delay_after(n + 1),
        0 <= delay_after(n) <= MAX_RECONNECT_DELAY_MS,
        n >= 6 ==> delay_after(n) == MAX_RECONNECT_DELAY_MS,
    decreases n,
{
    if n > 0 {
        law_pauses_grow_to_a_limit((n - 1) as nat);
    }
    if n == 6 {
        reveal_with_fuel(delay_after, 8);
    }
}

/// A client.
pub struct Client {
    config: ClientConfig,
    auth_manager: AuthManager,
    config_path: Option<String>,
}

impl Client {
    pub closed spec fn config(self) -> ClientConfig {
        self.config
    }

    pub closed spec fn auth(self) -> AuthManager {
        self.auth_manager
    }

    pub closed spec fn config_path(self) -> Option<String> {
        self.config_path
    }

    /// A client with these settings, which have to name a way to log in.
    pub fn new(config: ClientConfig, config_path: Option<String>) -> (r: Result<Self, ClientError>)
        requires
            config_hashable(config.auth),
        ensures
            r is Ok == has_manager(config.auth),
            match r {
                Ok(c) => c.config() == config && c.config_path() == config_path && is_manager_for(
                    c.auth(),
                    config.auth,
                ),
                Err(e) => is_other(e, auth_problem(config.auth)),
            },
    {
        match make_auth_manager(&config.auth) {
            Ok(auth_manager) => Ok(Client { config, auth_manager, config_path }),
            Err(e) => Err(ClientError::Other(e.message())),
        }
    }

    /// The settings.
    pub fn settings(&self) -> (c: &ClientConfig)
        ensures
            *c == self.config(),
    {
        &self.config
    }

    /// Where the settings were read from.
    pub fn config_file(&self) -> (p: Option<&str>)
        ensures
            match p {
                Some(t) => self.config_path() matches Some(q) && q@ == t@,
                None => self.config_path() is None,
            },
    {
        match &self.config_path {
            Some(p) => Some(p.as_str()),
            None => None,
        }
    }

    /// Where the web server listens, where there is one.
    pub fn web_addr(&self) -> (a: Option<String>)
        ensures
            match a {
                Some(t) => web_addr_of(self.config().web_server) == Some(t@),
                None => web_addr_of(self.config().web_server) is None,
            },
    {
        if self.config.web_server.port > 0 {
            Some(
                join_host_port(self.config.web_server.addr.as_str(), self.config.web_server.port),
            )
        } else {
            None
        }
    }

    /// Takes over settings that were read anew. The way to log in stays as it is.
    pub fn reload_config(&mut self, new_config: ClientConfig)
        ensures
            final(self).config() == new_config,
            final(self).auth() == old(self).auth(),
            final(self).config_path() == old(self).config_path(),
    {
        self.config = new_config;
    }
}

/// A client that the server refuses is told why, and does not take the answer for a
/// login.
pub proof fn law_refused_login_is_answered(error: AuthError, answer: LoginRespMsg)
    requires
        answer.error@ == error.spec_message(),
    ensures
        !says_logged_in(Message::LoginResp(answer)),
{
    reveal_strlit("invalid token");
    reveal_strlit("token is required for token auth");
    reveal_strlit("unsupported auth method: ");
    reveal_strlit("OIDC config is required for OIDC auth");
    reveal_strlit("encryption key not set");
    reveal_strlit("HMAC signing failed");
    reveal_strlit("internal error: ");
}

/// Without settings to the contrary both ends encrypt: the server with its built-in
/// certificate, and the client, which accepts any certificate, on its control and work
/// connections.
pub proof fn law_encrypted_by_default(t: TransportConfig)
    requires
        t.is_default(),
    ensures
        tls_source_of(t) is Builtin,
        client_tls_of(t) is Insecure,
        uses_tls(t),
{
}

/// A client with the token of the server is let in.
pub proof fn law_right_token_logs_in(
    client: ClientConfig,
    server_auth: AuthConfig,
    server: AuthManager,
    login: LoginMsg,
    unix_time: i64,
)
    requires
        is_manager_for(server, server_auth),
        server_auth.method@ == "token"@,
        client.auth.token is Some,
        server_auth.token is Some,
        client.auth.token->0@ == server_auth.token->0@,
        login.token@ == text_or(client.auth.token, Seq::<char>::empty()),
    ensures
        server.login_check().accepts(login.token@, unix_time),
{
    reveal_strlit("token");
    reveal_strlit("oidc");
    assert("token"@.len() != "oidc"@.len());
}

/// A client's announcement of a work connection carries the signature that a server
/// with the same token expects.
pub proof fn law_server_accepts_client_signature(
    token: String,
    server: AuthManager,
    run_id: Seq<char>,
    reachable: Set<Seq<char>>,
)
    requires
        server.key() == Some(token_key(token@)),
        reachable.contains(run_id),
    ensures
        crate::work::admission(
            run_id,
            client_sign(Some(token), run_id),
            reachable,
            crate::work::expected_sign(server, run_id),
        ) is Ok,
{
}

} // verus!
