use rust_frp::config::{
    AuthConfig, PluginConfig, PortRange, ProxyConfig, ServerConfig, TlsConfig,
};
use rust_frp::groups::GroupRegistry;
use rust_frp::message::ProxyManager;
use rust_frp::metrics::{MonitorMetrics, ProxyConnGuard};
use rust_frp::proxies::{port_allowed, ProxyRefusal, ServerProxyManager, StartAction, StopAction};
use rust_frp::server::{join_host_port, peer_gone, server_tls_source, Server, ServerError, TlsSource};
use rust_frp::work::{classify_work_conn, WorkConnClass};

#[test]
fn test_server_error_is_send_sync() {
    fn assert_send_sync<T: Send + Sync>() {}
    assert_send_sync::<ServerError>();
}

#[test]
fn test_server_error_display() {
    let err = ServerError::ProxyNotFound("myproxy".to_string());
    assert!(err.message().contains("myproxy"));

    let err = ServerError::PortNotAllowed(9999);
    assert!(err.message().contains("9999"));

    let err = ServerError::Other("something went wrong".to_string());
    assert!(err.message().contains("something went wrong"));
}

#[test]
fn test_server_error_from_io() {
    let io_err = std::io::Error::new(std::io::ErrorKind::ConnectionRefused, "test");
    let server_err: ServerError = io_err.into();
    assert!(server_err.message().contains("I/O error"));
    assert_eq!(server_err.message(), "I/O error: test");
}

#[test]
fn test_port_range_default() {
    let pr = PortRange::default();
    assert_eq!(pr.single, None);
    assert_eq!(pr.start, None);
    assert_eq!(pr.end, None);
}

#[test]
fn test_render_prometheus_format() {
    let mut m = MonitorMetrics::new(0);
    m.increment_connections();
    m.increment_connections();
    m.decrement_connections();
    m.incr_login_successes();
    m.incr_login_failures();
    m.incr_tls_rejects();
    m.incr_work_conn_total();

    let out = m.render_prometheus(0);

    assert!(out.contains("# TYPE frps_uptime_seconds gauge"));
    assert!(out.contains("# TYPE frps_connections_total counter"));
    assert!(out.contains("frps_connections_total 2"));
    assert!(out.contains("frps_connections_current 1"));
    assert!(out.contains("# TYPE frps_login_successes_total counter"));
    assert!(out.contains("frps_login_successes_total 1"));
    assert!(out.contains("frps_login_failures_total 1"));
    assert!(out.contains("frps_tls_rejects_total 1"));
    assert!(out.contains("frps_work_conn_total 1"));
    assert!(out.contains("frps_traffic_bytes_sent_total 0"));
}

#[test]
fn test_render_prometheus_label_escaping() {
    let mut m = MonitorMetrics::new(0);
    m.register_proxy_stat("evil\"\\name\ninject", "tcp", Some(6000));

    let out = m.render_prometheus(0);
    assert!(!out.contains("evil\"\\name\ninject"));
    assert!(out.contains("name=\"evil\\\"\\\\name\\ninject\""));
    assert!(
        out.contains("frps_proxy_conns_current{name=\"evil\\\"\\\\name\\ninject\",type=\"tcp\"} 0")
    );
}

#[test]
fn test_proxy_conn_guard_acquire_release() {
    let mut m = MonitorMetrics::new(0);
    m.register_proxy_stat("ssh", "tcp", Some(6000));

    {
        let g = ProxyConnGuard::acquire(&mut m, "ssh").unwrap();
        let g2 = ProxyConnGuard::acquire(&mut m, "ssh").unwrap();
        assert_eq!(m.get_proxy_stat("ssh").unwrap().current_conns, 2);
        assert_eq!(m.get_proxy_stat("ssh").unwrap().total_conns, 2);
        g.release(&mut m);
        g2.release(&mut m);
    }
    assert_eq!(m.get_proxy_stat("ssh").unwrap().current_conns, 0);
    assert_eq!(m.get_proxy_stat("ssh").unwrap().total_conns, 2);

    let out = m.render_prometheus(0);
    assert!(out.contains("frps_proxy_conns_current{name=\"ssh\",type=\"tcp\"} 0"));
    assert!(out.contains("frps_proxy_conns_total{name=\"ssh\",type=\"tcp\"} 2"));

    m.remove_proxy_stat("ssh");
    let out = m.render_prometheus(0);
    assert!(!out.contains("frps_proxy_conns_current{name=\"ssh\""));
}

#[test]
fn a_guard_of_an_earlier_registration_counts_nothing() {
    let mut m = MonitorMetrics::new(0);
    m.register_proxy_stat("ssh", "tcp", None);
    let old = ProxyConnGuard::acquire(&mut m, "ssh").unwrap();
    m.register_proxy_stat("ssh", "tcp", None);
    let new = ProxyConnGuard::acquire(&mut m, "ssh").unwrap();
    old.release(&mut m);
    assert_eq!(m.get_proxy_stat("ssh").unwrap().current_conns, 1);
    new.release(&mut m);
    assert_eq!(m.get_proxy_stat("ssh").unwrap().current_conns, 0);
    assert!(ProxyConnGuard::acquire(&mut m, "other").is_none());
}

#[test]
fn uptime_is_counted_from_the_start() {
    let m = MonitorMetrics::new(100);
    assert_eq!(m.uptime(130), 30);
    assert_eq!(m.get_metrics(130).uptime, 30);
    assert!(m.render_prometheus(130).contains("frps_uptime_seconds 30"));
}

fn single(p: u16) -> PortRange {
    PortRange {
        single: Some(p),
        start: None,
        end: None,
    }
}

fn build_manager(
    max_ports_per_user: Option<usize>,
    allow_ports: Vec<PortRange>,
) -> ServerProxyManager {
    ServerProxyManager::new(allow_ports, max_ports_per_user)
}

fn tcp_proxy(name: &str, port: u16) -> ProxyConfig {
    ProxyConfig {
        name: name.to_string(),
        kind: "tcp".to_string(),
        local_ip: "127.0.0.1".to_string(),
        local_port: 22,
        remote_port: Some(port),
        ..Default::default()
    }
}

fn refusal(r: Result<StartAction, ProxyRefusal>) -> String {
    match r {
        Err(e) => e.message(),
        Ok(_) => panic!("the proxy must be refused"),
    }
}

#[test]
fn test_max_ports_per_user_quota() {
    let ports: Vec<u16> = vec![20001, 20002, 20003, 20004];
    let allow: Vec<PortRange> = ports.iter().map(|&p| single(p)).collect();
    let mut mgr = build_manager(Some(2), allow);

    assert!(mgr.add_proxy_for_user(tcp_proxy("a1", ports[0]), "alice").is_ok());
    assert!(mgr.add_proxy_for_user(tcp_proxy("a2", ports[1]), "alice").is_ok());

    let err = mgr.add_proxy_for_user(tcp_proxy("a3", ports[2]), "alice");
    assert!(refusal(err).contains("max_ports_per_user"));

    assert!(mgr.add_proxy_for_user(tcp_proxy("b1", ports[2]), "bob").is_ok());

    let _ = mgr.remove_proxy("a1");
    assert!(mgr.add_proxy_for_user(tcp_proxy("a4", ports[3]), "alice").is_ok());
}

#[test]
fn test_add_proxy_failure_no_residual() {
    let ok_port = 20001;
    let bad_port = 20002;
    let mut mgr = build_manager(Some(1), vec![single(ok_port)]);

    let err = mgr.add_proxy_for_user(tcp_proxy("bad", bad_port), "alice");
    assert!(err.is_err());

    assert!(mgr.get_proxy_status("bad").is_none());

    assert!(mgr.add_proxy_for_user(tcp_proxy("good", ok_port), "alice").is_ok());
    assert_eq!(mgr.get_proxy_status("good").as_deref(), Some("running"));
}

#[test]
fn test_add_proxy_duplicate_name_rejected() {
    let port = 20001;
    let mut mgr = build_manager(None, vec![single(port)]);

    assert!(mgr.add_proxy(tcp_proxy("dup", port)).is_ok());
    let err = mgr.add_proxy(tcp_proxy("dup", port));
    assert!(refusal(err).contains("already exists"));
}

#[test]
fn test_http_proxy_not_counted_in_quota() {
    let port = 20001;
    let mut mgr = build_manager(Some(1), vec![single(port)]);

    assert!(mgr.add_proxy_for_user(tcp_proxy("t1", port), "alice").is_ok());

    let http = ProxyConfig {
        name: "h1".to_string(),
        kind: "http".to_string(),
        local_ip: "127.0.0.1".to_string(),
        local_port: 80,
        custom_domains: Some(vec!["test.example.com".to_string()]),
        ..Default::default()
    };
    assert!(mgr.add_proxy_for_user(http, "alice").is_ok());
}

#[test]
fn a_proxy_whose_port_cannot_be_bound_leaves_nothing() {
    let mut mgr = build_manager(Some(1), vec![single(20001)]);
    assert!(mgr.add_proxy_for_user(tcp_proxy("a", 20001), "alice").is_ok());
    mgr.start_failed("a");
    assert!(mgr.get_proxy_status("a").is_none());
    assert!(mgr.add_proxy_for_user(tcp_proxy("b", 20001), "alice").is_ok());
    let mut mgr = build_manager(None, vec![single(20001)]);
    let grouped = |name: &str| ProxyConfig {
        group: Some("g".to_string()),
        ..tcp_proxy(name, 20001)
    };
    assert!(mgr.add_proxy(grouped("c")).is_ok());
    mgr.start_failed("c");
    assert!(mgr.pick_member(20001).is_none());
    assert!(matches!(mgr.add_proxy(grouped("d")), Ok(StartAction::BindTcp { .. })));
}

#[test]
fn a_limit_of_nothing_is_no_limit() {
    let mut mgr = build_manager(Some(0), vec![single(20001)]);
    assert!(mgr.add_proxy_for_user(tcp_proxy("a", 20001), "alice").is_ok());
}

#[test]
fn ports_are_allowed_by_ranges_only() {
    let ranges = vec![
        single(80),
        PortRange {
            single: None,
            start: Some(100),
            end: Some(200),
        },
    ];
    assert!(port_allowed(80, &ranges));
    assert!(!port_allowed(81, &ranges));
    assert!(port_allowed(100, &ranges));
    assert!(port_allowed(200, &ranges));
    assert!(!port_allowed(201, &ranges));
    assert!(!port_allowed(80, &[]));
}

#[test]
fn test_classify_work_conn_matrix() {
    assert_eq!(classify_work_conn(0x16, true, false), WorkConnClass::Tls);
    assert_eq!(classify_work_conn(0x16, true, true), WorkConnClass::Tls);

    assert_eq!(classify_work_conn(0x16, false, false), WorkConnClass::Reject);
    assert_eq!(classify_work_conn(0x16, false, true), WorkConnClass::Reject);

    assert_eq!(classify_work_conn(0x00, false, true), WorkConnClass::Reject);
    assert_eq!(classify_work_conn(0x00, true, true), WorkConnClass::Reject);
    assert_eq!(classify_work_conn(0x00, false, false), WorkConnClass::Plain);
    assert_eq!(classify_work_conn(0x00, true, false), WorkConnClass::Plain);
}

#[test]
fn test_tls_only_requires_tls_config_validation() {
    fn base_cfg() -> ServerConfig {
        let mut cfg = ServerConfig::default();
        cfg.auth.token = Some("test-token".to_string());
        cfg
    }

    let mut cfg = base_cfg();
    cfg.transport.tls_only = true;
    cfg.transport.tls = None;
    let err = Server::new(cfg, None).err();
    let msg = err.map(|e| e.message()).unwrap_or_default();
    assert!(msg.contains("tls_only"), "unexpected error: {}", msg);

    let mut cfg = base_cfg();
    cfg.transport.tls_only = true;
    cfg.transport.tls = Some(TlsConfig {
        enable: false,
        ..Default::default()
    });
    assert!(Server::new(cfg, None).is_err());

    let mut cfg = base_cfg();
    cfg.transport.tls_only = true;
    cfg.transport.tls = Some(TlsConfig {
        enable: true,
        ..Default::default()
    });
    assert!(Server::new(cfg, None).is_ok());

    let mut cfg = base_cfg();
    cfg.transport.tls = None;
    assert!(Server::new(cfg, None).is_ok());
}

#[test]
fn a_server_without_a_token_cannot_be_made() {
    let cfg = ServerConfig {
        auth: AuthConfig {
            method: "token".to_string(),
            token: None,
            oidc: None,
        },
        ..Default::default()
    };
    match Server::new(cfg, None) {
        Err(e) => assert!(e.message().contains("token is required")),
        Ok(_) => panic!("a token is required"),
    }
}

#[test]
fn certificates_come_from_files_or_are_built_in() {
    let mut cfg = ServerConfig::default();
    cfg.transport.tls = Some(TlsConfig::default());
    assert!(matches!(server_tls_source(&cfg.transport), TlsSource::Builtin));
    cfg.transport.tls = Some(TlsConfig {
        cert_file: Some("c".to_string()),
        key_file: Some("k".to_string()),
        ..Default::default()
    });
    match server_tls_source(&cfg.transport) {
        TlsSource::Files { cert_file, key_file } => {
            assert_eq!(cert_file, "c");
            assert_eq!(key_file, "k");
        }
        _ => panic!("the files are given"),
    }
    cfg.transport.tls = None;
    assert!(matches!(server_tls_source(&cfg.transport), TlsSource::Disabled));
}

#[test]
fn addresses_are_joined_with_ports() {
    assert_eq!(join_host_port("127.0.0.1", 7000), "127.0.0.1:7000");
}

#[test]
fn errors_of_a_peer_that_left_are_told_apart() {
    assert!(peer_gone("Connection Reset by peer"));
    assert!(peer_gone("BROKEN PIPE"));
    assert!(!peer_gone("no route to host"));
}

#[test]
fn test_group_registry_join_pick_round_robin() {
    let mut reg = GroupRegistry::default();

    assert!(reg.join("web", "key1", 9000, "web-1").unwrap());
    assert!(!reg.join("web", "key1", 9000, "web-2").unwrap());

    let a = reg.pick(9000).unwrap();
    let b = reg.pick(9000).unwrap();
    let c = reg.pick(9000).unwrap();
    assert_ne!(a, b, "consecutive picks should hit different members");
    assert_eq!(a, c, "round-robin should cycle back to first member");
    let members = ["web-1", "web-2"];
    assert!(members.contains(&a.as_str()) && members.contains(&b.as_str()));
}

#[test]
fn test_group_registry_key_mismatch_rejected() {
    let mut reg = GroupRegistry::default();
    reg.join("web", "secret", 9000, "web-1").unwrap();
    let err = reg.join("web", "wrong", 9000, "web-2").unwrap_err().message();
    assert!(err.contains("group_key"), "unexpected error: {}", err);
}

#[test]
fn test_group_registry_group_port_unique() {
    let mut reg = GroupRegistry::default();
    reg.join("web", "k", 9000, "web-1").unwrap();

    let err = reg.join("web", "k", 9001, "web-2").unwrap_err().message();
    assert!(err.contains("bound to port"), "unexpected error: {}", err);

    let err = reg.join("api", "k", 9000, "api-1").unwrap_err().message();
    assert!(err.contains("already bound by group"), "unexpected error: {}", err);
}

#[test]
fn test_group_registry_leave_and_cleanup() {
    let mut reg = GroupRegistry::default();
    reg.join("web", "k", 9000, "web-1").unwrap();
    reg.join("web", "k", 9000, "web-2").unwrap();

    assert!(!reg.leave(9000, "web-1"));
    for _ in 0..4 {
        assert_eq!(reg.pick(9000).unwrap(), "web-2");
    }

    assert!(reg.leave(9000, "web-2"));
    assert_eq!(reg.member_count(9000), 0);
    assert!(reg.pick(9000).is_none());

    assert!(reg.join("web", "k", 9001, "web-3").unwrap());
}

#[test]
fn test_group_proxy_validation_and_shared_lifecycle() {
    let port = 20001;
    let mut mgr = build_manager(None, vec![single(port)]);

    let grouped = |name: &str, group: &str, key: &str| ProxyConfig {
        group: Some(group.to_string()),
        group_key: Some(key.to_string()),
        ..tcp_proxy(name, port)
    };

    assert!(matches!(
        mgr.add_proxy(grouped("web-1", "web", "secret")),
        Ok(StartAction::BindTcp { port: 20001, grouped: true, .. })
    ));
    assert!(matches!(
        mgr.add_proxy(grouped("web-2", "web", "secret")),
        Ok(StartAction::Shared)
    ));

    let err = mgr.add_proxy(grouped("web-3", "web", "wrong"));
    assert!(refusal(err).contains("group_key"));

    let mut p = grouped("web-4", "web2", "k");
    p.plugin = Some(PluginConfig::default());
    let err = mgr.add_proxy(p);
    assert!(refusal(err).contains("plugin cannot be used together"));

    let mut p = grouped("http-1", "web3", "k");
    p.kind = "http".to_string();
    let err = mgr.add_proxy(p);
    assert!(refusal(err).contains("only supported for tcp"));

    assert!(matches!(mgr.remove_proxy("web-1"), StopAction::KeepShared));
    match mgr.remove_proxy("web-2") {
        StopAction::CloseShared { key } => assert_eq!(key, "__group_port_20001__"),
        _ => panic!("the last member closes the listener"),
    }
    assert!(matches!(
        mgr.add_proxy(grouped("web-new", "web", "secret")),
        Ok(StartAction::BindTcp { grouped: true, .. })
    ));
}

#[test]
fn members_of_a_group_share_one_listener() {
    let port = 20001;
    let mut mgr = build_manager(None, vec![single(port)]);
    let grouped = |name: &str| ProxyConfig {
        group: Some("web".to_string()),
        group_key: Some("k".to_string()),
        ..tcp_proxy(name, port)
    };
    assert!(matches!(mgr.add_proxy(grouped("a")), Ok(StartAction::BindTcp { .. })));
    assert!(!matches!(mgr.add_proxy(grouped("b")), Ok(StartAction::BindTcp { .. })));
    let first = mgr.pick_member(port).unwrap();
    let second = mgr.pick_member(port).unwrap();
    assert_ne!(first, second);
}

#[test]
fn each_metric_is_explained_once() {
    let mut m = MonitorMetrics::new(0);
    assert!(!m.render_prometheus(0).contains("frps_proxy_conns"));
    m.register_proxy_stat("a", "tcp", Some(6000));
    m.register_proxy_stat("b", "tcp", Some(6001));
    m.register_proxy_stat("c", "udp", None);
    let guard = ProxyConnGuard::acquire(&mut m, "a").unwrap();
    m.remove_proxy_stat("b");
    let out = m.render_prometheus(0);
    let tail: Vec<&str> = out.lines().skip(33).collect();
    assert_eq!(
        tail,
        vec![
            "# HELP frps_proxy_conns_current Current connections per proxy",
            "# TYPE frps_proxy_conns_current gauge",
            "frps_proxy_conns_current{name=\"a\",type=\"tcp\"} 1",
            "frps_proxy_conns_current{name=\"c\",type=\"udp\"} 0",
            "# HELP frps_proxy_conns_total Total connections per proxy",
            "# TYPE frps_proxy_conns_total counter",
            "frps_proxy_conns_total{name=\"a\",type=\"tcp\"} 1",
            "frps_proxy_conns_total{name=\"c\",type=\"udp\"} 0",
        ]
    );
    for line in out.lines() {
        assert!(
            line.starts_with("# HELP frps_")
                || line.starts_with("# TYPE frps_")
                || line.starts_with("frps_")
        );
    }
    assert!(out.ends_with('\n'));
    guard.release(&mut m);
    assert_eq!(m.get_proxy_stat("a").unwrap().current_conns, 0);
}
