use rust_frp::auth::{AuthManager, OidcAuthVerifier, TokenClaims};
use rust_frp::client::{
    work_conn_port_of, ClientError, ClientProxyManager, ClientVisitorManager, LocalStart,
    WorkConnManager,
};
use rust_frp::config::{
    AuthConfig, ClientConfig, ConfigLoader, OidcConfig, PluginConfig, PortRange, ProxyConfig,
    ServerConfig, VisitorConfig,
};
use rust_frp::control::ControlManager;
use rust_frp::groups::group_listener_key;
use rust_frp::health::is_good_answer;
use rust_frp::http::HttpRequestInfo;
use rust_frp::message::{Message, NewWorkConnMsg, ProxyManager, VisitorManager};
use rust_frp::metrics::MonitorMetrics;
use rust_frp::mux::is_mux;
use rust_frp::names::NameMap;
use rust_frp::plugin::{is_under, parse_socks_request, PluginAction};
use rust_frp::pool::{ConnPool, PoolConfig, PooledConn};
use rust_frp::proxies::{ServerProxyManager, StartAction, StopAction};
use rust_frp::server::{
    make_auth_manager, route_to_target, route_visitor, udp_from_visitor, Server, ServerError,
    VisitorRoute,
};
use rust_frp::session::{Control, ServerState};
use rust_frp::text::{
    chars_of, find_from, is_whitespace, matches_at, push_decimal, push_signed, replace, same,
    string_of,
};
use rust_frp::vhost::{
    answer_parsed_request, bad_request_text, gateway_timeout_text, no_channel_text,
    no_members_text, no_owner_text, not_found_text, HttpVhostRouter, VhostAnswer,
};
use rust_frp::web::proxy_client;
use rust_frp::work::{
    admit_work_conn, check_work_conn, Registered, ServerWorkConnManager, StcpBridgeManager,
    WorkConnRefusal,
};
use std::sync::Arc;

#[test]
fn numbers_are_written_in_decimal() {
    let mut t = String::new();
    push_decimal(&mut t, 0);
    push_decimal(&mut t, u64::MAX);
    push_signed(&mut t, i64::MIN);
    push_signed(&mut t, 7);
    assert_eq!(t, format!("0{}{}7", u64::MAX, i64::MIN));
}

#[test]
fn characters_are_found_and_cut() {
    let chars = chars_of("aé=b=");
    assert_eq!(find_from(&chars, '=', 0), 2);
    assert_eq!(find_from(&chars, '=', 3), 4);
    assert_eq!(find_from(&chars, 'x', 0), 5);
    assert_eq!(string_of(&chars, 1, 4), "é=b");
    assert!(matches_at(&chars, 2, &chars_of("=b")));
    assert!(!matches_at(&chars, 4, &chars_of("=b")));
    assert!(same("a", "a") && !same("a", "b"));
    assert_eq!(replace("a+b+", '+', " "), "a b ");
    for u in 0..0x3100u32 {
        if let Some(c) = char::from_u32(u) {
            assert_eq!(is_whitespace(c), c.is_whitespace());
        }
    }
}

#[test]
fn senders_of_work_connections_are_found_by_proxy() {
    let mut m: WorkConnManager<u8> = WorkConnManager::new();
    assert!(m.get_work_conn_sender("web").is_none());
    match m.handle_work_conn("web") {
        Err(e) => assert_eq!(e.message(), "No work conn handler for proxy: web"),
        Ok(_) => panic!("nobody handles this proxy"),
    }
    m.register_work_conn_handler("web".to_string(), 3);
    assert_eq!(m.handle_work_conn("web").unwrap(), &3);
    assert_eq!(m.get_work_conn_sender("web"), Some(&3));
    assert_eq!(ClientError::WorkConnManagerNotSet.message(), "WorkConnManager not set");
    assert_eq!(ClientError::Io("x".to_string()).message(), "I/O error: x");
    assert_eq!(
        ClientError::NoWorkConnHandler("web".to_string()).message(),
        "no work conn handler for proxy: web"
    );
}

#[test]
fn proxies_and_visitors_of_a_client_are_listed() {
    let mut m = ClientProxyManager::new();
    m.set_work_conn_manager();
    let web = ProxyConfig {
        name: "web".to_string(),
        kind: "xtcp".to_string(),
        ..Default::default()
    };
    assert!(matches!(m.start_proxy(&web), LocalStart::Nothing));
    let _ = m.add_proxy(web);
    assert_eq!(m.list_proxies().len(), 1);
    assert_eq!(m.list_proxies()[0].name, "web");
    let mut v = ClientVisitorManager::new();
    v.add_visitor(VisitorConfig {
        name: "v".to_string(),
        ..Default::default()
    });
    assert_eq!(v.list_visitors()[0].name, "v");
    let mut c = ClientConfig {
        server_port: 7000,
        ..Default::default()
    };
    assert_eq!(work_conn_port_of(&c), 8000);
    c.work_conn_port = Some(1);
    assert_eq!(work_conn_port_of(&c), 1);
}

#[test]
fn references_in_settings_are_replaced() {
    let mut env: NameMap<String> = NameMap::new();
    env.insert("IP".to_string(), "10.0.0.9".to_string());
    let proxy = || ProxyConfig {
        local_ip: "${IP}".to_string(),
        ..Default::default()
    };
    let mut server = ServerConfig {
        bind_addr: "${IP}".to_string(),
        includes: Some(vec!["/etc/${IP}.toml".to_string()]),
        proxies: vec![proxy()],
        ..Default::default()
    };
    assert!(ConfigLoader::replace_environment_variables(&mut server, &env, 10));
    assert_eq!(server.bind_addr, "10.0.0.9");
    assert_eq!(server.includes.unwrap()[0], "/etc/10.0.0.9.toml");
    assert_eq!(server.proxies[0].local_ip, "10.0.0.9");
    let mut client = ClientConfig {
        proxies: vec![proxy()],
        ..Default::default()
    };
    assert!(ConfigLoader::replace_environment_variables_client(&mut client, &env, 10));
    assert_eq!(client.proxies[0].local_ip, "10.0.0.9");
}

#[test]
fn clients_are_known_by_their_run() {
    let mut c: ControlManager<u8> = ControlManager::new();
    c.add_client("me".to_string(), "run".to_string(), "alice".to_string(), 5);
    assert!(!c.is_reachable("run"));
    c.add("run".to_string(), 9);
    assert_eq!(c.get_msg_tx("run"), Some(&9));
    c.update_heartbeat("run", 50);
    let info = c.get_client("run").unwrap();
    assert_eq!((info.connected_at, info.last_heartbeat), (5, 50));
    assert_eq!(c.get_clients().len(), 1);
    let mut owners: NameMap<String> = NameMap::new();
    assert_eq!(proxy_client(&owners, &c, "web"), "-");
    owners.insert("web".to_string(), "run".to_string());
    assert_eq!(proxy_client(&owners, &c, "web"), "me");
    c.remove("run");
    assert!(!c.is_reachable("run"));
}

#[test]
fn everything_is_counted() {
    let mut m = MonitorMetrics::new(0);
    m.increment_proxies();
    m.increment_proxies();
    m.decrement_proxies();
    m.add_bytes_sent(10);
    m.add_bytes_received(20);
    let s = m.get_metrics(0);
    assert_eq!((s.total_proxies, s.current_proxies), (2, 1));
    assert_eq!((s.bytes_sent, s.bytes_received), (10, 20));
}

#[test]
fn small_decisions() {
    assert_eq!(group_listener_key(80), "__group_port_80__");
    assert!(is_good_answer("HTTP/1.0 200 OK"));
    assert!(!is_good_answer("SSH-2.0"));
    assert!(is_mux(0x5A) && !is_mux(0x16));
    let path = |p: &str| p.split('/').map(|c| c.as_bytes().to_vec()).collect::<Vec<_>>();
    assert!(is_under(&path("/a"), &path("/a/b")));
    assert!(!is_under(&path("/a/b"), &path("/a")));
    assert!(matches!(parse_socks_request(&vec![5, 1, 0, 4]), PluginAction::Fail(_)));
    assert!(HttpRequestInfo::parse_text("GET / HTTP/1.1\r\nHost: a\r\n\r\n").is_some());
    let mut m: NameMap<u8> = NameMap::new();
    m.insert("a".to_string(), 1);
    m.insert("b".to_string(), 2);
    assert_eq!(m.values(), vec![&1, &2]);
    assert_eq!(m.remove_at(0), ("a".to_string(), 1));
}

#[test]
fn pools_are_emptied() {
    let mut c = PooledConn::new(1u8, 0);
    c.mark_used(9);
    assert_eq!((c.use_count, c.last_used_at, c.created_at), (1, 9, 0));
    let mut pool: ConnPool<u8> = ConnPool::new(PoolConfig::default());
    let conn = pool.connected(1, 0);
    pool.put(conn, true);
    pool.close_all();
    assert_eq!(pool.get_stats().total_closed, 1);
    assert_eq!(pool.get_stats().current_idle, 0);
}

fn ranges() -> Vec<PortRange> {
    vec![PortRange {
        single: None,
        start: Some(9000),
        end: Some(9100),
    }]
}

fn tcp(name: &str, port: u16) -> ProxyConfig {
    ProxyConfig {
        name: name.to_string(),
        kind: "tcp".to_string(),
        remote_port: Some(port),
        ..Default::default()
    }
}

#[test]
fn proxies_of_a_server_start_and_stop() {
    let mut m = ServerProxyManager::new(ranges(), Some(1));
    let config = Arc::new(tcp("web", 9000));
    match m.start_proxy(&config) {
        Ok(StartAction::BindTcp { port, key, grouped }) => {
            assert_eq!((port, key.as_str(), grouped), (9000, "web", false))
        }
        _ => panic!("the port is allowed"),
    }
    assert!(m.add_proxy_inner(config, Some("alice")).is_ok());
    assert_eq!(m.list_proxies().len(), 1);
    assert!(m.add_proxy_for_user(tcp("two", 9001), "alice").is_err());
    m.release_user_quota("web");
    assert!(m.add_proxy_for_user(tcp("two", 9001), "alice").is_ok());
    assert!(matches!(m.stop_proxy("web"), StopAction::CloseOwn));
    let udp = ProxyConfig {
        kind: "udp".to_string(),
        ..tcp("dns", 9002)
    };
    assert!(matches!(m.add_proxy(udp), Ok(StartAction::BindUdp { port: 9002 })));
    let without_port = ProxyConfig {
        kind: "udp".to_string(),
        remote_port: None,
        ..tcp("dns2", 0)
    };
    match m.add_proxy(without_port) {
        Err(e) => assert_eq!(e.message(), "UDP proxy requires remote_port"),
        Ok(_) => panic!("a port is required"),
    }
    let ws = ProxyConfig {
        kind: "websocket".to_string(),
        ..tcp("ws", 9003)
    };
    assert!(matches!(m.add_proxy(ws), Ok(StartAction::BindWebsocket { port: 9003 })));
    match m.add_proxy(tcp("far", 80)) {
        Err(e) => assert_eq!(e.message(), "Port 80 is not in the allowed ports list"),
        Ok(_) => panic!("the port is not allowed"),
    }
    let web = ProxyConfig {
        kind: "http".to_string(),
        subdomain: Some("sub".to_string()),
        ..tcp("site", 0)
    };
    assert!(matches!(m.add_proxy(web), Ok(StartAction::Routed)));
    let router = m.get_http_vhost_router();
    assert_eq!(router.find_proxy_by_host("sub"), Some("site".to_string()));
    let lonely = ProxyConfig {
        group: Some("g".to_string()),
        remote_port: None,
        ..tcp("lonely", 0)
    };
    match m.add_proxy(lonely) {
        Err(e) => assert_eq!(
            e.message(),
            "proxy [lonely] rejected: group [g] requires remote_port"
        ),
        Ok(_) => panic!("a port is required"),
    }
}

fn state() -> (Server, ServerState<u32, u8>) {
    let mut cfg = ServerConfig::default();
    cfg.auth.token = Some("secret".to_string());
    cfg.allow_ports = ranges();
    let server = match Server::new(cfg, None) {
        Ok(s) => s,
        Err(e) => panic!("{}", e.message()),
    };
    let state = server.initial_state(0);
    (server, state)
}

#[test]
fn a_server_counts_from_its_start() {
    let (server, _) = state();
    let fresh: ServerState<u32, u8> = server.initial_state(100);
    assert_eq!(fresh.metrics.uptime(130), 30);
    assert!(fresh.metrics.get_proxy_stat("web").is_none());
    assert!(fresh.controls.get_clients().is_empty());
}

#[test]
fn visitors_are_routed_to_the_member_in_turn() {
    let (_server, mut state) = state();
    let member = |n: &str| ProxyConfig {
        group: Some("g".to_string()),
        ..tcp(n, 9000)
    };
    assert!(state.proxies.add_proxy(member("a")).is_ok());
    assert!(state.proxies.add_proxy(member("b")).is_ok());
    state.controls.add("run".to_string(), 1);
    for name in ["a", "b"] {
        state.owners.insert(name.to_string(), "run".to_string());
    }
    let mut seen = Vec::new();
    for _ in 0..4 {
        match route_visitor(&mut state, "a", Some(9000), false) {
            VisitorRoute::WorkConn { target, run_id } => {
                assert_eq!(run_id, "run");
                seen.push(target);
            }
            _ => panic!("a member is reachable"),
        }
    }
    assert_eq!(seen[0], seen[2]);
    assert_eq!(seen[1], seen[3]);
    assert_ne!(seen[0], seen[1]);
    match route_visitor(&mut state, "a", Some(9001), false) {
        VisitorRoute::Respond { text } => assert_eq!(text, no_members_text()),
        _ => panic!("there is no such group"),
    }
    match route_to_target("none".to_string(), false, &state.owners, &state.controls) {
        VisitorRoute::Unreachable { target, text } => {
            assert_eq!((target.as_str(), text), ("none", no_owner_text()))
        }
        _ => panic!("nobody offers this proxy"),
    }
    assert!(matches!(
        route_to_target("x".to_string(), true, &state.owners, &state.controls),
        VisitorRoute::Plugin { .. }
    ));
    state.controls.remove("run");
    match route_to_target("a".to_string(), false, &state.owners, &state.controls) {
        VisitorRoute::Unreachable { target, text } => {
            assert_eq!((target.as_str(), text), ("a", no_channel_text()))
        }
        _ => panic!("the client is gone"),
    }
}

#[test]
fn datagrams_of_visitors_go_to_the_client() {
    let (_server, mut state) = state();
    assert!(udp_from_visitor("dns", vec![1], "1.2.3.4:5", &state.owners, &state.controls).is_none());
    state.owners.insert("dns".to_string(), "run".to_string());
    state.controls.add("run".to_string(), 1);
    match udp_from_visitor("dns", vec![1], "1.2.3.4:5", &state.owners, &state.controls) {
        Some((run_id, Message::UdpPacket(m))) => {
            assert_eq!(run_id, "run");
            assert_eq!(m.client_addr.as_deref(), Some("1.2.3.4:5"));
            assert_eq!(m.data, vec![1]);
        }
        _ => panic!("the client is reachable"),
    }
    let control = Control::new(false, 0);
    assert!(control.cleanup_proxies(&mut state).is_empty());
}

#[test]
fn answers_of_the_http_port() {
    assert_eq!(bad_request_text(), "HTTP/1.1 400 Bad Request\r\nContent-Length: 0\r\n\r\n");
    assert_eq!(gateway_timeout_text(), "HTTP/1.1 504 Gateway Timeout\r\n\r\n");
    assert!(not_found_text("é").contains("Content-Length: 28\r\n"));
    let info = HttpRequestInfo::parse_text("GET / HTTP/1.1\r\nHost: a\r\n\r\n").unwrap();
    let router = HttpVhostRouter::new();
    let owners: NameMap<String> = NameMap::new();
    let controls: ControlManager<u8> = ControlManager::new();
    assert!(matches!(
        answer_parsed_request(&info, &router, &owners, &controls),
        VhostAnswer::Respond(_)
    ));
}

#[test]
fn work_connections_are_checked_and_queued() {
    assert!(check_work_conn("", true, None).is_ok());
    assert!(check_work_conn("x", true, Some("x")).is_ok());
    assert!(matches!(
        check_work_conn("", true, Some("y")),
        Err(WorkConnRefusal::SignKeyMismatch)
    ));
    assert!(matches!(
        check_work_conn("x", true, Some("y")),
        Err(WorkConnRefusal::SignKeyMismatch)
    ));
    assert!(matches!(
        check_work_conn("x", false, Some("x")),
        Err(WorkConnRefusal::UnknownRunId)
    ));
    let (server, state) = state();
    let msg = NewWorkConnMsg {
        run_id: "run".to_string(),
        proxy_name: "web".to_string(),
        timestamp: 0,
        sign_key: String::new(),
        use_encryption: false,
        use_compression: false,
    };
    let refusal = admit_work_conn(&msg, &state.controls, server.auth_manager()).unwrap_err();
    assert_eq!(refusal.message(), "Unknown run_id");
    match refusal.reply() {
        Some(Message::StartWorkConn(m)) => assert_eq!(m.error, "Unknown run_id"),
        _ => panic!("the client is told"),
    }
    assert!(WorkConnRefusal::UnexpectedMessage.reply().is_none());
    let mut pools: ServerWorkConnManager<u8> = ServerWorkConnManager::new(2);
    assert!(matches!(pools.register_work_conn("web", 1), Registered::Discarded(1)));
    pools.init_pool("web");
    for i in 1..3 {
        assert!(matches!(pools.register_work_conn("web", i), Registered::Pooled));
    }
    assert!(matches!(pools.register_work_conn("web", 3), Registered::Discarded(3)));
    assert_eq!(pools.take("web"), Some(1));
    assert_eq!(pools.take("web"), Some(2));
    assert_eq!(pools.take("web"), None);
    match pools.get_work_conn("web") {
        Ok(fetch) => assert!(matches!(fetch.started(), Message::ReqWorkConn(_))),
        Err(e) => panic!("{}", e),
    }
    pools.remove_pool("web");
    assert!(pools.get_work_conn("web").is_err());
    let mut bridges: StcpBridgeManager<u8> = StcpBridgeManager::new();
    assert_eq!(bridges.add_conn_and_try_bridge("b", 1), Err(1));
    bridges.create_bridge("b".to_string());
    assert_eq!(bridges.add_conn_and_try_bridge("b", 1), Ok(None));
    assert_eq!(bridges.add_conn_and_try_bridge("b", 2), Ok(Some((1, 2))));
    bridges.create_bridge("b".to_string());
    bridges.cleanup("b");
    assert_eq!(bridges.add_conn_and_try_bridge("b", 1), Err(1));
    let mut waiting: rust_frp::work::WorkConnManager<u8> = rust_frp::work::WorkConnManager::new();
    assert_eq!(
        waiting.complete_work_conn("web").unwrap_err(),
        "No pending work conn request for proxy: web"
    );
    waiting.register_pending("web".to_string(), 4);
    assert_eq!(waiting.complete_work_conn("web"), Ok(&4));
}

#[test]
fn managers_are_made_from_settings() {
    let token = AuthConfig {
        method: "token".to_string(),
        token: Some("t".to_string()),
        oidc: None,
    };
    let m: Result<AuthManager, ServerError> = make_auth_manager(&token);
    assert!(m.is_ok());
    let verifier = OidcAuthVerifier::new(&OidcConfig::default());
    assert!(verifier.verify_token("a.b", 0).is_err());
    let claims = TokenClaims {
        alg: None,
        iss: None,
        aud: Some("x".to_string()),
        aud_list: None,
        exp: None,
        iat: None,
    };
    assert!(claims.names_audience("x"));
    assert!(!claims.names_audience("y"));
    assert!(PluginConfig::default().kind.is_empty());
}
