use rust_frp::auth::{
    admits_visitor, generate_visitor_sign, generate_work_conn_sign_key, AuthManager,
};
use rust_frp::client::{
    build_client_tls_config, find_proxy, ClientError, ClientProxyManager, ClientTls,
    ClientVisitorManager, LocalService, LocalStart,
};
use rust_frp::config::{
    AuthConfig, ClientConfig, HealthCheckConfig, ProxyConfig, ServerConfig, TlsConfig,
    VisitorConfig,
};
use rust_frp::health::{HealthChecker, HealthProbe, HealthReport, ProbeResult};
use rust_frp::link::{
    bad_gateway_text, check_login_answer, check_register_answer, check_start_answer,
    choose_transport, disconnect_message, is_xtcp, login_message, mux_tls, proxy_header,
    punch_addrs, stcp_visitor_message, udp_answer, visitor_listeners, visitor_nat_message,
    work_conn_message, work_conn_proxy, work_conn_tls, work_route, Client, ClientAction,
    ClientControl, ControlTransport, LoggedIn, Reconnect, Visitor, WorkRoute,
};
use rust_frp::message::{
    DisconnectMsg, LoginRespMsg, Message, NewWorkConnMsg, PingMsg, PongMsg, ProxyManager,
    RegisterProxyMsg, RegisterProxyRespMsg, ReqWorkConnMsg, StartWorkConnMsg, UdpPacketMsg,
    VisitorManager, XtcpHolePunchMsg, XtcpNatInfoMsg,
};
use rust_frp::metrics::MonitorMetrics;
use rust_frp::server::Server;
use rust_frp::session::{Control, ControlAction, LoginRefusal, ServerState};
use rust_frp::work::{
    bridge_start, process_work_conn, Awaited, FetchStep, ServerWorkConnManager, StcpBridgeManager,
    WorkConnRefusal, WorkConnVerdict,
};

fn proxy(name: &str, kind: &str) -> ProxyConfig {
    ProxyConfig {
        name: name.to_string(),
        kind: kind.to_string(),
        local_ip: "127.0.0.1".to_string(),
        local_port: 8080,
        remote_port: Some(9000),
        ..Default::default()
    }
}

fn client_config() -> ClientConfig {
    ClientConfig {
        server_addr: "10.0.0.1".to_string(),
        server_port: 7000,
        auth: AuthConfig {
            method: "token".to_string(),
            token: Some("secret".to_string()),
            oidc: None,
        },
        proxies: vec![proxy("web", "tcp"), proxy("dns", "udp")],
        ..Default::default()
    }
}

#[test]
fn test_health_checker_creation() {
    let proxy = ProxyConfig {
        name: "test_proxy".to_string(),
        kind: "tcp".to_string(),
        local_ip: "127.0.0.1".to_string(),
        local_port: 3000,
        remote_port: Some(8000),
        health_check: Some(HealthCheckConfig {
            kind: "tcp".to_string(),
            interval_seconds: 30,
            timeout_seconds: 5,
            max_failed: 3,
            path: None,
        }),
        ..Default::default()
    };
    let checker = HealthChecker::new(proxy.clone());
    assert!(!proxy.name.is_empty());
    assert_eq!(checker.interval_seconds(), Some(30));
    assert_eq!(checker.timeout_seconds(), Some(5));
}

fn checker(kind: &str, path: Option<&str>) -> HealthChecker {
    HealthChecker::new(ProxyConfig {
        health_check: Some(HealthCheckConfig {
            kind: kind.to_string(),
            interval_seconds: 0,
            timeout_seconds: 0,
            max_failed: 2,
            path: path.map(|p| p.to_string()),
        }),
        ..proxy("web", "tcp")
    })
}

#[test]
fn services_are_probed_as_the_settings_say() {
    match checker("tcp", None).probe() {
        HealthProbe::Tcp { addr } => assert_eq!(addr, "127.0.0.1:8080"),
        _ => panic!("a connection is tried"),
    }
    match checker("http", None).probe() {
        HealthProbe::Http { addr, request } => {
            assert_eq!(addr, "127.0.0.1:8080");
            assert_eq!(
                request,
                "GET / HTTP/1.0\r\nHost: 127.0.0.1\r\nConnection: close\r\n\r\n"
            );
        }
        _ => panic!("a request is sent"),
    }
    match checker("http", Some("/ok")).probe() {
        HealthProbe::Http { request, .. } => assert!(request.starts_with("GET /ok HTTP/1.0\r\n")),
        _ => panic!("a request is sent"),
    }
    assert!(matches!(checker("icmp", None).probe(), HealthProbe::Unsupported));
    assert!(matches!(HealthChecker::new(proxy("web", "tcp")).probe(), HealthProbe::Off));
    assert_eq!(checker("tcp", None).interval_seconds(), Some(1));
}

#[test]
fn failures_are_counted_up_to_the_limit() {
    let mut c = checker("http", None);
    assert_eq!(c.record(ProbeResult::Answered("HTTP/1.0 500".to_string())), HealthReport::Healthy);
    assert_eq!(c.record(ProbeResult::Failed), HealthReport::Failing { count: 1 });
    assert_eq!(c.record(ProbeResult::Connected), HealthReport::Recovered);
    assert_eq!(
        c.record(ProbeResult::Answered("garbage".to_string())),
        HealthReport::Failing { count: 1 }
    );
    assert_eq!(c.record(ProbeResult::Failed), HealthReport::Unhealthy);
    assert_eq!(c.record(ProbeResult::Failed), HealthReport::Failing { count: 1 });
}

fn read_address(r: Result<LocalStart, ClientError>) -> LocalService {
    match r {
        Ok(LocalStart::ReadAddress(service)) => service,
        _ => panic!("the proxy has a local service"),
    }
}

#[test]
fn proxies_of_a_client_start_with_their_limit() {
    let mut m = ClientProxyManager::new();
    let service = read_address(m.add_proxy(proxy("web", "tcp")));
    assert!(matches!(
        m.address_read(service, None),
        Err(ClientError::WorkConnManagerNotSet)
    ));
    assert_eq!(m.get_proxy_status("web").as_deref(), Some("running"));
    m.set_work_conn_manager();
    m.set_bandwidth_limit(Some("20MB".to_string()));
    let service = read_address(m.add_proxy(proxy("web", "tcp")));
    assert_eq!(service.local_addr, "127.0.0.1:8080");
    assert_eq!(service.bandwidth_limit.as_deref(), Some("20MB"));
    assert_eq!(m.address_read(service, None).unwrap().local_addr, "127.0.0.1:8080");
    let named = ProxyConfig {
        local_ip: "localhost".to_string(),
        ..proxy("named", "tcp")
    };
    let service = read_address(m.add_proxy(named));
    let problem = Some("invalid socket address syntax".to_string());
    assert_eq!(
        m.address_read(service, problem).unwrap_err().message(),
        "invalid socket address syntax"
    );
    assert_eq!(m.get_proxy_status("named").as_deref(), Some("running"));
    let own = ProxyConfig {
        bandwidth_limit: Some("5MB".to_string()),
        ..proxy("web", "tcp")
    };
    let service = read_address(m.add_proxy(own));
    assert_eq!(service.bandwidth_limit.as_deref(), Some("5MB"));
    assert!(matches!(m.add_proxy(proxy("dns", "udp")), Ok(LocalStart::Nothing)));
    m.remove_proxy("dns");
    assert!(m.get_proxy_status("dns").is_none());
    m.clear();
    assert!(m.get_proxy_status("web").is_none());
    let mut v = ClientVisitorManager::new();
    v.add_visitor(VisitorConfig::default());
    v.remove_visitor("");
    v.clear();
}

#[test]
fn control_connections_take_the_transport_of_the_settings() {
    let mut c = client_config();
    c.transport.protocol = "kcp".to_string();
    assert!(matches!(choose_transport(&c), ControlTransport::Kcp { .. }));
    c.transport.protocol = "websocket".to_string();
    c.transport.tls = None;
    match choose_transport(&c) {
        ControlTransport::WebSocket { url } => assert_eq!(url, "wss://10.0.0.1:7000/ws"),
        _ => panic!("a WebSocket"),
    }
    c.transport.tls = Some(TlsConfig {
        enable: false,
        ..Default::default()
    });
    match choose_transport(&c) {
        ControlTransport::WebSocket { url } => assert_eq!(url, "ws://10.0.0.1:7000/ws"),
        _ => panic!("a WebSocket"),
    }
    c.transport.protocol = "tcp".to_string();
    match choose_transport(&c) {
        ControlTransport::Mux { addr, secure } => {
            assert_eq!(addr, "10.0.0.1:7000");
            assert!(!secure);
        }
        _ => panic!("one connection carries everything"),
    }
    assert_eq!(
        mux_tls(&c).unwrap_err().message(),
        "tcp_mux requires TLS but client tls is disabled"
    );
    c.transport.tcp_mux = false;
    assert!(matches!(choose_transport(&c), ControlTransport::Tcp { .. }));
    c.transport.tls = None;
    assert!(matches!(choose_transport(&c), ControlTransport::Tls { .. }));
}

#[test]
fn work_connections_take_their_port() {
    let mut c = client_config();
    match work_route(&c, true, false) {
        WorkRoute::Direct { addr, secure } => {
            assert_eq!(addr, "10.0.0.1:8000");
            assert!(secure);
        }
        WorkRoute::Mux => panic!("there is no such connection"),
    }
    assert!(matches!(work_route(&c, true, true), WorkRoute::Mux));
    c.work_conn_port = Some(7777);
    match work_route(&c, false, false) {
        WorkRoute::Direct { addr, secure } => {
            assert_eq!(addr, "10.0.0.1:7777");
            assert!(!secure);
        }
        WorkRoute::Mux => panic!("there is no such connection"),
    }
    c.transport.tls = None;
    assert_eq!(
        work_conn_tls(&c).unwrap_err().message(),
        "server requires TLS work conn but client tls is disabled"
    );
    c.transport.tls = Some(TlsConfig::default());
    assert!(matches!(work_conn_tls(&c), Ok(ClientTls::Insecure)));
    c.transport.tls = Some(TlsConfig {
        trusted_ca_file: Some("ca.pem".to_string()),
        ..Default::default()
    });
    assert!(matches!(build_client_tls_config(&c), ClientTls::CaFile { .. }));
}

#[test]
fn a_client_introduces_itself() {
    let mut c = client_config();
    match login_message(&c, "x86_64", "linux", "host", "run", 5) {
        Message::Login(l) => {
            assert_eq!(l.client_id, "host");
            assert_eq!(l.user, "");
            assert_eq!(l.token, "secret");
            assert_eq!(l.version, "0.1.0");
            assert_eq!(l.pool_count, 10);
            assert_eq!(l.timestamp, 5);
        }
        _ => panic!("a login"),
    }
    c.client_id = Some("me".to_string());
    c.user = Some("alice".to_string());
    match login_message(&c, "x86_64", "linux", "host", "run", 5) {
        Message::Login(l) => {
            assert_eq!(l.client_id, "me");
            assert_eq!(l.user, "alice");
        }
        _ => panic!("a login"),
    }
}

fn login_resp(error: &str) -> Message {
    Message::LoginResp(LoginRespMsg {
        version: "0.1.0".to_string(),
        run_id: "run".to_string(),
        error: error.to_string(),
        work_conn_tls: true,
    })
}

#[test]
fn answers_of_the_server_are_understood() {
    let l = check_login_answer(login_resp("")).unwrap();
    assert_eq!(l.run_id, "run");
    assert!(l.work_conn_tls);
    assert_eq!(check_login_answer(login_resp("no")).unwrap_err().message(), "no");
    let ping = || Message::Ping(PingMsg { timestamp: 0 });
    assert_eq!(check_login_answer(ping()).unwrap_err().message(), "unexpected message");
    let resp = |e: &str| {
        Message::RegisterProxyResp(RegisterProxyRespMsg {
            name: "web".to_string(),
            error: e.to_string(),
        })
    };
    assert!(check_register_answer("web", resp("")).is_ok());
    assert_eq!(
        check_register_answer("web", resp("taken")).unwrap_err().message(),
        "Failed to register proxy web: taken"
    );
    assert_eq!(
        check_register_answer("web", ping()).unwrap_err().message(),
        "Unexpected message"
    );
    let start = |e: &str| {
        Message::StartWorkConn(StartWorkConnMsg {
            error: e.to_string(),
            src_addr: "1.2.3.4".to_string(),
            src_port: 54321,
            dst_addr: String::new(),
            dst_port: 0,
        })
    };
    let v = check_start_answer(start("")).unwrap();
    assert_eq!((v.addr.as_str(), v.port), ("1.2.3.4", 54321));
    assert_eq!(check_start_answer(start("x")).unwrap_err().message(), "Server error: x");
    assert_eq!(
        check_start_answer(ping()).unwrap_err().message(),
        "Unexpected response from server"
    );
    assert!(matches!(
        disconnect_message(),
        Message::Disconnect(DisconnectMsg { reason }) if reason == "client_shutdown"
    ));
}

#[test]
fn local_services_are_told_whom_they_serve() {
    let mut p = proxy("web", "tcp");
    let v = Visitor {
        addr: "1.2.3.4".to_string(),
        port: 54321,
    };
    assert!(proxy_header(&p, &v).is_none());
    p.proxy_protocol = Some(true);
    assert_eq!(
        proxy_header(&p, &v).unwrap(),
        "PROXY TCP4 1.2.3.4 127.0.0.1 54321 8080\r\n"
    );
    let unknown = Visitor {
        addr: String::new(),
        port: 0,
    };
    assert!(proxy_header(&p, &unknown).is_none());
    assert_eq!(
        bad_gateway_text("abc"),
        "HTTP/1.1 502 Bad Gateway\r\nContent-Type: text/plain\r\nContent-Length: 48\r\n\r\nFailed to connect to local service after retries: abc"
    );
}

#[test]
fn work_connections_are_signed() {
    let c = client_config();
    assert!(work_conn_proxy(&c, "web").is_ok());
    assert_eq!(
        work_conn_proxy(&c, "none").unwrap_err().message(),
        "Proxy config not found: none"
    );
    assert_eq!(find_proxy(&c, "dns").unwrap().kind, "udp");
    match work_conn_message(&c, "web", "run", 9) {
        Message::NewWorkConn(m) => {
            assert_eq!(m.sign_key, generate_work_conn_sign_key("secret", "run"));
            assert_eq!(m.proxy_name, "web");
            assert_eq!(m.timestamp, 9);
            assert!(!m.use_encryption && !m.use_compression);
        }
        _ => panic!("an announcement"),
    }
}

fn control() -> ClientControl {
    ClientControl::new(
        LoggedIn {
            run_id: "run".to_string(),
            work_conn_tls: false,
        },
        0,
    )
}

#[test]
fn pings_are_sent_and_silence_is_noticed() {
    let mut c = control();
    assert!(c.due_ping(10_000, 1).is_none());
    assert!(matches!(c.due_ping(10_001, 1), Some(Message::Ping(PingMsg { timestamp: 1 }))));
    assert!(c.due_ping(10_002, 1).is_none());
    assert!(!c.pong_expired(90_000));
    assert!(c.pong_expired(90_001));
    let pong = Message::Pong(PongMsg { timestamp: 0 });
    assert!(c.handle_message(&client_config(), pong, 50_000).is_empty());
    assert!(!c.pong_expired(140_000));
}

#[test]
fn requests_of_the_server_are_acted_on() {
    let config = client_config();
    let mut c = control();
    let req = Message::ReqWorkConn(ReqWorkConnMsg {
        proxy_name: "web".to_string(),
    });
    let actions = c.handle_message(&config, req, 0);
    assert!(matches!(&actions[0], ClientAction::OpenWorkConn { proxy_name } if proxy_name == "web"));
    let udp = |n: &str| {
        Message::UdpPacket(UdpPacketMsg {
            proxy_name: n.to_string(),
            data: vec![1, 2],
            client_addr: Some("9.9.9.9:53".to_string()),
        })
    };
    let actions = c.handle_message(&config, udp("dns"), 0);
    assert!(matches!(
        &actions[0],
        ClientAction::ForwardUdp { local_addr, .. } if local_addr == "127.0.0.1:8080"
    ));
    assert!(c.handle_message(&config, udp("none"), 0).is_empty());
    let nat = |n: &str, public: &str| {
        Message::XtcpNatInfo(XtcpNatInfoMsg {
            proxy_name: n.to_string(),
            run_id: "peer".to_string(),
            nat_type: "unknown".to_string(),
            local_addr: String::new(),
            public_addr: public.to_string(),
        })
    };
    let actions = c.handle_message(&config, nat("web", "5.6.7.8:1"), 0);
    assert_eq!(actions.len(), 2);
    assert!(matches!(
        &actions[0],
        ClientAction::Send { message: Message::XtcpNatInfo(m) } if m.run_id == "run"
    ));
    assert!(matches!(&actions[1], ClientAction::PunchAll { addrs } if addrs.len() == 1));
    assert!(c.handle_message(&config, nat("none", ""), 0).is_empty());
    let punch = Message::XtcpHolePunch(XtcpHolePunchMsg {
        proxy_name: "web".to_string(),
        from_run_id: "a".to_string(),
        to_run_id: "b".to_string(),
        peer_local_addr: "l:1".to_string(),
        peer_public_addr: "p:1".to_string(),
    });
    let actions = c.handle_message(&config, punch, 0);
    assert!(matches!(
        &actions[0],
        ClientAction::PunchInTurn { addrs } if addrs[0] == "p:1" && addrs[1] == "l:1"
    ));
    assert_eq!(punch_addrs("", "l"), vec!["l".to_string()]);
    assert!(matches!(
        udp_answer("dns".to_string(), vec![1], None),
        Message::UdpPacket(UdpPacketMsg { client_addr: None, .. })
    ));
}

fn visitor(kind: &str, server_name: &str) -> VisitorConfig {
    VisitorConfig {
        name: "v".to_string(),
        kind: kind.to_string(),
        server_name: server_name.to_string(),
        secret_key: None,
        bind_addr: "127.0.0.1".to_string(),
        bind_port: 9000,
        transport: None,
    }
}

#[test]
fn visitors_listen_and_ask() {
    let mut c = client_config();
    c.visitors = vec![visitor("stcp", "ssh"), visitor("sudp", "dns"), visitor("xtcp", "rdp")];
    let listeners = visitor_listeners(&c);
    assert_eq!(listeners.len(), 2);
    assert_eq!(listeners[0].bind_addr, "127.0.0.1:9000");
    assert_eq!(listeners[1].proxy_name, "rdp");
    assert!(is_xtcp(&c, "rdp"));
    assert!(!is_xtcp(&c, "ssh"));
    assert!(visitor_nat_message(&c, "ssh", "run").is_none());
    assert!(visitor_nat_message(&c, "rdp", "run").is_some());
    match stcp_visitor_message(&c, "ssh", "run", -12) {
        Message::StcpVisitor(m) => assert_eq!(m.sign_key, ""),
        _ => panic!("a visitor"),
    }
    c.visitors[0].secret_key = Some("shared".to_string());
    match stcp_visitor_message(&c, "ssh", "run", 12) {
        Message::StcpVisitor(m) => {
            assert_eq!(m.sign_key, generate_visitor_sign(Some("shared"), "run", 12));
            assert!(admits_visitor(Some("shared"), "run", 12, &m.sign_key));
            assert!(!admits_visitor(Some("shared"), "run", 13, &m.sign_key));
            assert!(!admits_visitor(Some("other"), "run", 12, &m.sign_key));
            assert!(!admits_visitor(Some("shared"), "run", 12, ""));
            assert!(admits_visitor(None, "run", 12, ""));
        }
        _ => panic!("a visitor"),
    }
}

#[test]
fn visitors_reach_a_proxy_of_another_client_with_its_secret() {
    let s = server();
    let mut state: ServerState<u32, u8> = s.initial_state(0);
    let mut owner = logged_in(&s, &mut state, "owner");
    let secret = ProxyConfig {
        secret_key: Some("shared".to_string()),
        ..proxy("ssh", "stcp")
    };
    assert!(owner.register_proxy(&mut state, secret).is_ok());
    let _ = owner.proxy_registered(&mut state, "ssh", "stcp", None);
    let mut guest = logged_in(&s, &mut state, "guest");
    let mut c = client_config();
    c.visitors = vec![visitor("stcp", "ssh")];
    let asked = stcp_visitor_message(&c, "ssh", "guest", 5);
    let refused = guest.handle_message(&mut state, asked, 0);
    assert_eq!(refused.actions.len(), 1);
    assert!(matches!(
        &refused.actions[0],
        ControlAction::Send { message: Message::StcpVisitorResp(m) } if m.error == "secret key mismatch"
    ));
    c.visitors[0].secret_key = Some("shared".to_string());
    let asked = stcp_visitor_message(&c, "ssh", "guest", 5);
    let step = guest.handle_message(&mut state, asked, 0);
    assert_eq!(step.actions.len(), 3);
    assert!(matches!(
        &step.actions[0],
        ControlAction::Relay { run_id, message: Message::ReqWorkConn(m) }
            if run_id == "owner" && m.proxy_name == "ssh"
    ));
    assert!(matches!(
        &step.actions[1],
        ControlAction::Relay { run_id, message: Message::ReqWorkConn(_) } if run_id == "guest"
    ));
    assert!(matches!(
        &step.actions[2],
        ControlAction::Send { message: Message::StcpVisitorResp(m) }
            if m.error.is_empty() && m.visitor_run_id == "guest"
    ));
    assert_eq!(state.bridges.add_conn_and_try_bridge("ssh", 1), Ok(None));
    assert_eq!(state.bridges.add_conn_and_try_bridge("ssh", 2), Ok(Some((1, 2))));
    assert!(check_start_answer(bridge_start()).is_ok());
}

#[test]
fn pauses_grow_up_to_half_a_minute() {
    let mut r = Reconnect::new();
    assert_eq!(r.connection_lost(0), None);
    r.login_succeeded();
    let pauses: Vec<u64> = (0..8).map(|_| r.connection_lost(0).unwrap()).collect();
    assert_eq!(pauses, vec![0, 1000, 2000, 4000, 8000, 16000, 30000, 30000]);
    assert_eq!(r.connection_lost(3000), Some(33000));
    r.login_succeeded();
    assert_eq!(r.delay_ms(), 0);
}

#[test]
fn a_client_needs_a_way_to_log_in() {
    let mut c = client_config();
    let mut client = Client::new(c.clone(), Some("frpc.toml".to_string())).unwrap();
    assert_eq!(client.config_file(), Some("frpc.toml"));
    assert_eq!(client.settings().server_port, 7000);
    assert!(client.web_addr().is_none());
    let mut newer = c.clone();
    newer.web_server.port = 7400;
    client.reload_config(newer);
    assert!(client.web_addr().unwrap().ends_with(":7400"));
    c.auth.token = None;
    match Client::new(c, None) {
        Err(e) => assert_eq!(e.message(), "token is required for token auth"),
        Ok(_) => panic!("a token is required"),
    }
}

fn server() -> Server {
    let mut cfg = ServerConfig::default();
    cfg.auth.token = Some("secret".to_string());
    cfg.allow_ports = vec![rust_frp::config::PortRange {
        single: None,
        start: Some(9000),
        end: Some(9100),
    }];
    match Server::new(cfg, None) {
        Ok(s) => s,
        Err(e) => panic!("{}", e.message()),
    }
}

fn logged_in(s: &Server, state: &mut ServerState<u32, u8>, run: &str) -> Control {
    let mut control = Control::new(false, 0);
    let login = login_message(&client_config(), "a", "o", "host", run, 0);
    match control.login(state, login, s.auth_manager(), 0, 0) {
        Ok(Message::LoginResp(m)) => assert_eq!(m.error, ""),
        _ => panic!("the token is right"),
    }
    state.controls.add(control.run_id.clone(), 1);
    control
}

#[test]
fn logins_are_checked() {
    let s = server();
    let mut state: ServerState<u32, u8> = s.initial_state(0);
    let control = logged_in(&s, &mut state, "run");
    assert_eq!(control.client_id, "host");
    let mut other = Control::new(true, 0);
    let mut wrong = client_config();
    wrong.auth.token = Some("bad".to_string());
    let r = other.login(
        &mut state,
        login_message(&wrong, "a", "o", "h", "run2", 0),
        s.auth_manager(),
        0,
        0,
    );
    let refusal = match r {
        Err(refusal) => refusal,
        Ok(_) => panic!("the token is wrong"),
    };
    assert!(matches!(refusal, LoginRefusal::Auth { .. }));
    match check_login_answer(refusal.reply().unwrap()) {
        Err(e) => assert_eq!(e.message(), "invalid token"),
        Ok(_) => panic!("the client is told"),
    }
    let r = other.login(
        &mut state,
        Message::Ping(PingMsg { timestamp: 0 }),
        s.auth_manager(),
        0,
        0,
    );
    assert!(matches!(r, Err(LoginRefusal::UnexpectedMessage)));
    assert!(LoginRefusal::UnexpectedMessage.reply().is_none());
    let out = state.metrics.render_prometheus(0);
    assert!(out.contains("frps_login_successes_total 1"));
    assert!(out.contains("frps_login_failures_total 1"));
}

#[test]
fn proxies_come_and_go_with_their_client() {
    let s = server();
    let mut state: ServerState<u32, u8> = s.initial_state(0);
    let mut control = logged_in(&s, &mut state, "run");
    let step = control.handle_message(
        &mut state,
        Message::RegisterProxy(RegisterProxyMsg {
            proxy: proxy("web", "tcp"),
        }),
        1,
    );
    let config = match step.actions.into_iter().next() {
        Some(ControlAction::AddProxy { config }) => config,
        _ => panic!("the proxy is added"),
    };
    assert!(control.register_proxy(&mut state, config).is_ok());
    let answer = control.proxy_registered(&mut state, "web", "tcp", Some(9000));
    assert!(check_register_answer("web", answer).is_ok());
    let refusal = match control.register_proxy(&mut state, proxy("web", "tcp")) {
        Err(refusal) => refusal,
        Ok(_) => panic!("the name is taken"),
    };
    match check_register_answer("web", control.proxy_refused("web", &refusal)) {
        Err(e) => assert_eq!(
            e.message(),
            "Failed to register proxy web: \"proxy [web] already exists\""
        ),
        Ok(()) => panic!("the client is told"),
    }
    let other = ProxyConfig {
        remote_port: Some(9001),
        ..proxy("other", "tcp")
    };
    assert!(control.register_proxy(&mut state, other).is_ok());
    let answer = control.proxy_failed(&mut state, "other", "port in use".to_string());
    assert!(matches!(answer, Message::RegisterProxyResp(m) if m.error == "port in use"));
    assert!(state.proxies.get_proxy_status("other").is_none());
    assert_eq!(state.proxies.get_proxy_status("web").as_deref(), Some("running"));
    let ping = control.handle_message(&mut state, Message::Ping(PingMsg { timestamp: 3 }), 50);
    assert!(matches!(
        &ping.actions[0],
        ControlAction::Send { message: Message::Pong(_) }
    ));
    assert!(!control.heartbeat_expired(90_050));
    assert!(control.heartbeat_expired(90_051));
    state.pools.init_pool("web");
    let end = control.handle_message(&mut state, disconnect_message(), 60);
    assert!(end.closed.is_some());
    assert!(state.pools.get_work_conn("web").is_err());
    assert!(state.proxies.get_proxy_status("web").is_none());
    assert!(state.owners.get("web").is_none());
}

#[test]
fn work_connections_are_admitted_and_pooled() {
    let s = server();
    let mut state: ServerState<u32, u8> = s.initial_state(0);
    let _control = logged_in(&s, &mut state, "run");
    let run_id = _control.run_id.clone();
    let mut pools: ServerWorkConnManager<u32> = ServerWorkConnManager::new(1);
    pools.init_pool("web");
    let mut bridges: StcpBridgeManager<u32> = StcpBridgeManager::new();
    let announce = |run: &str, sign: &str| {
        Message::NewWorkConn(NewWorkConnMsg {
            run_id: run.to_string(),
            proxy_name: "web".to_string(),
            timestamp: 0,
            sign_key: sign.to_string(),
            use_encryption: false,
            use_compression: false,
        })
    };
    let good = generate_work_conn_sign_key("secret", &run_id);
    let mut metrics = MonitorMetrics::new(0);
    let mut offer = |msg: Message,
                     conn: u32,
                     bridges: &mut StcpBridgeManager<u32>,
                     pools: &mut ServerWorkConnManager<u32>| {
        let auth = s.auth_manager();
        process_work_conn(msg, conn, &state.controls, auth, bridges, pools, &mut metrics)
    };
    let v = offer(announce("other", ""), 1, &mut bridges, &mut pools);
    assert!(matches!(
        v,
        WorkConnVerdict::Refused { conn: 1, refusal: WorkConnRefusal::UnknownRunId }
    ));
    let v = offer(announce(&run_id, "bad"), 2, &mut bridges, &mut pools);
    assert!(matches!(
        v,
        WorkConnVerdict::Refused { conn: 2, refusal: WorkConnRefusal::SignKeyMismatch }
    ));
    let v = offer(announce(&run_id, &good), 3, &mut bridges, &mut pools);
    assert!(matches!(v, WorkConnVerdict::Pooled));
    let v = offer(announce(&run_id, &good), 4, &mut bridges, &mut pools);
    assert!(matches!(v, WorkConnVerdict::Discarded { conn: 4 }));
    let v = offer(Message::Ping(PingMsg { timestamp: 0 }), 5, &mut bridges, &mut pools);
    assert!(matches!(
        v,
        WorkConnVerdict::Refused { conn: 5, refusal: WorkConnRefusal::UnexpectedMessage }
    ));
    bridges.create_bridge("web".to_string());
    let v = offer(announce(&run_id, &good), 6, &mut bridges, &mut pools);
    assert!(matches!(v, WorkConnVerdict::Waiting));
    let v = offer(announce(&run_id, &good), 7, &mut bridges, &mut pools);
    assert!(matches!(v, WorkConnVerdict::Bridge { first: 6, second: 7 }));
    assert!(metrics.render_prometheus(0).contains("frps_work_conn_total 2"));

    let mut fetch = match pools.get_work_conn("web") {
        Ok(f) => f,
        Err(e) => panic!("{}", e),
    };
    match fetch.next(&mut pools, "1.2.3.4", 5) {
        FetchStep::Start { conn, message: Message::StartWorkConn(m) } => {
            assert_eq!(conn, 3);
            assert_eq!((m.src_addr.as_str(), m.src_port), ("1.2.3.4", 5));
        }
        _ => panic!("a connection is in the pool"),
    }
    fetch.start_failed("gone");
    assert!(matches!(fetch.next(&mut pools, "1.2.3.4", 5), FetchStep::Request { .. }));
    match fetch.awaited::<u32>(Awaited::TimedOut, "1.2.3.4", 5) {
        FetchStep::GiveUp { error } => assert_eq!(error, "Timeout waiting for work conn for web"),
        _ => panic!("nothing came"),
    }
    assert!(pools.get_work_conn("none").is_err());
}

#[test]
fn a_manager_of_another_token_expects_another_signature() {
    let manager = AuthManager::new(&AuthConfig {
        method: "token".to_string(),
        token: Some("other".to_string()),
        oidc: None,
    })
    .unwrap();
    let expected = manager.generate_work_conn_sign_key("run").unwrap();
    assert_ne!(expected, generate_work_conn_sign_key("secret", "run"));
    assert_eq!(expected, generate_work_conn_sign_key("other", "run"));
}
