use rust_frp::config::{
    AuthConfig, ClientConfig, ConfigLoader, HealthCheckConfig, PluginConfig, PortRange, ProxyConfig,
    ServerConfig, TlsConfig, TransportConfig, VisitorConfig, WebServerConfig,
};
use rust_frp::names::NameMap;

fn make_server_config(port: u16) -> ServerConfig {
    PortRange::default();
    ServerConfig {
        bind_addr: "127.0.0.1".to_string(),
        bind_port: port,
        work_conn_port: Some(port + 1000),
        vhost_http_port: None,
        vhost_https_port: None,
        allow_ports: vec![
            PortRange { single: Some(port + 1), start: None, end: None },
            PortRange { start: Some(port + 100), end: Some(port + 200), single: None },
        ],
        auth: AuthConfig {
            method: "token".to_string(),
            token: Some("test_token".to_string()),
            ..Default::default()
        },
        transport: TransportConfig {
            tls: Some(TlsConfig { enable: false, ..Default::default() }),
            ..Default::default()
        },
        web_server: WebServerConfig { port: 0, ..Default::default() },
        ..ServerConfig::default()
    }
}

fn make_client_config(server_port: u16) -> ClientConfig {
    ClientConfig {
        server_addr: "127.0.0.1".to_string(),
        server_port,
        auth: AuthConfig {
            method: "token".to_string(),
            token: Some("test_token".to_string()),
            ..Default::default()
        },
        transport: TransportConfig {
            tls: Some(TlsConfig { enable: false, ..Default::default() }),
            ..Default::default()
        },
        proxies: vec![ProxyConfig {
            name: "test_tcp".to_string(),
            kind: "tcp".to_string(),
            local_ip: "127.0.0.1".to_string(),
            local_port: 0,
            remote_port: Some(server_port + 1),
            ..Default::default()
        }],
        ..ClientConfig::default()
    }
}

#[test]
fn test_server_config_construction() {
    let config = make_server_config(19300);
    assert_eq!(config.bind_port, 19300);
    assert_eq!(config.auth.token, Some("test_token".to_string()));
    assert!(config.allow_ports.len() == 2);
}

#[test]
fn test_client_config_construction() {
    let config = make_client_config(19300);
    assert_eq!(config.server_port, 19300);
    assert_eq!(config.proxies.len(), 1);
    assert_eq!(config.proxies[0].name, "test_tcp");
}

#[test]
fn test_port_range_configuration() {
    let port = PortRange {
        single: Some(8080),
        start: None,
        end: None,
    };
    assert_eq!(port.single, Some(8080));

    let range = PortRange {
        start: Some(10000),
        end: Some(20000),
        single: None,
    };
    assert_eq!(range.start, Some(10000));
    assert_eq!(range.end, Some(20000));
}

#[test]
fn test_config_transport_defaults() {
    let transport = TransportConfig::default();
    assert_eq!(transport.protocol, "tcp");
    assert_eq!(transport.pool_count, 10);
    assert!(transport.tcp_mux);
}

#[test]
fn test_config_tls_defaults() {
    let tls = TlsConfig::default();
    assert!(tls.enable);
    assert!(!tls.force);
}

#[test]
fn test_config_auth_defaults() {
    let auth = AuthConfig::default();
    assert_eq!(auth.method, "token");
}

#[test]
fn test_server_and_client_defaults() {
    let server = ServerConfig::default();
    assert_eq!(server.bind_addr, "0.0.0.0");
    assert!(server.allow_ports.is_empty());

    let client = ClientConfig::default();
    assert_eq!(client.server_addr, "127.0.0.1");
    assert!(client.proxies.is_empty());
}

#[test]
fn test_websocket_proxy_config() {
    let proxy = ProxyConfig {
        name: "ws_test".to_string(),
        kind: "websocket".to_string(),
        local_ip: "127.0.0.1".to_string(),
        local_port: 8080,
        remote_port: Some(9000),
        ..Default::default()
    };
    assert_eq!(proxy.kind, "websocket");
    assert_eq!(proxy.name, "ws_test");
    assert_eq!(proxy.remote_port, Some(9000));
}

#[test]
fn test_stcp_proxy_config() {
    let proxy = ProxyConfig {
        name: "stcp_test".to_string(),
        kind: "stcp".to_string(),
        local_ip: "127.0.0.1".to_string(),
        local_port: 22,
        secret_key: Some("my_secret_key".to_string()),
        ..Default::default()
    };
    assert_eq!(proxy.kind, "stcp");
    assert!(proxy.remote_port.is_none());
    assert_eq!(proxy.secret_key, Some("my_secret_key".to_string()));
}

#[test]
fn test_xtcp_proxy_config() {
    let proxy = ProxyConfig {
        name: "xtcp_test".to_string(),
        kind: "xtcp".to_string(),
        local_ip: "127.0.0.1".to_string(),
        local_port: 3389,
        secret_key: Some("xtcp_secret".to_string()),
        ..Default::default()
    };
    assert_eq!(proxy.kind, "xtcp");
    assert_eq!(proxy.local_port, 3389);
    assert_eq!(proxy.secret_key.as_deref(), Some("xtcp_secret"));
}

#[test]
fn test_stcp_visitor_config() {
    let visitor = VisitorConfig {
        name: "visit_ssh".to_string(),
        kind: "stcp".to_string(),
        server_name: "ssh_proxy".to_string(),
        secret_key: Some("my_secret_key".to_string()),
        bind_addr: "127.0.0.1".to_string(),
        bind_port: 9000,
        transport: None,
    };
    assert_eq!(visitor.kind, "stcp");
    assert_eq!(visitor.server_name, "ssh_proxy");
    assert_eq!(visitor.bind_port, 9000);
    assert_eq!(visitor.secret_key.as_deref(), Some("my_secret_key"));
}

#[test]
fn test_xtcp_visitor_config() {
    let visitor = VisitorConfig {
        name: "visit_rdp".to_string(),
        kind: "xtcp".to_string(),
        server_name: "rdp_proxy".to_string(),
        secret_key: Some("xtcp_secret".to_string()),
        bind_addr: "127.0.0.1".to_string(),
        bind_port: 13389,
        transport: None,
    };
    assert_eq!(visitor.kind, "xtcp");
    assert_eq!(visitor.server_name, "rdp_proxy");
    assert_eq!(visitor.bind_port, 13389);
}

#[test]
fn test_client_config_with_stcp_xtcp_proxies() {
    let config = ClientConfig {
        server_addr: "127.0.0.1".to_string(),
        server_port: 7000,
        auth: AuthConfig {
            method: "token".to_string(),
            token: Some("test123".to_string()),
            ..Default::default()
        },
        transport: Default::default(),
        proxies: vec![
            ProxyConfig {
                name: "ssh".to_string(),
                kind: "stcp".to_string(),
                local_ip: "127.0.0.1".to_string(),
                local_port: 22,
                secret_key: Some("key1".to_string()),
                ..Default::default()
            },
            ProxyConfig {
                name: "rdp".to_string(),
                kind: "xtcp".to_string(),
                local_ip: "127.0.0.1".to_string(),
                local_port: 3389,
                secret_key: Some("key2".to_string()),
                ..Default::default()
            },
        ],
        visitors: vec![
            VisitorConfig {
                name: "v_ssh".to_string(),
                kind: "stcp".to_string(),
                server_name: "ssh".to_string(),
                secret_key: Some("key1".to_string()),
                bind_addr: "127.0.0.1".to_string(),
                bind_port: 9000,
                transport: None,
            },
            VisitorConfig {
                name: "v_rdp".to_string(),
                kind: "xtcp".to_string(),
                server_name: "rdp".to_string(),
                secret_key: Some("key2".to_string()),
                bind_addr: "127.0.0.1".to_string(),
                bind_port: 13389,
                transport: None,
            },
        ],
        ..Default::default()
    };

    assert_eq!(config.proxies.len(), 2);
    assert_eq!(config.visitors.len(), 2);

    let stcp = &config.proxies[0];
    assert_eq!(stcp.kind, "stcp");
    assert_eq!(stcp.secret_key.as_deref(), Some("key1"));
    assert!(stcp.remote_port.is_none());

    let xtcp = &config.proxies[1];
    assert_eq!(xtcp.kind, "xtcp");
    assert_eq!(xtcp.secret_key.as_deref(), Some("key2"));

    let v1 = &config.visitors[0];
    assert_eq!(v1.kind, "stcp");
    assert_eq!(v1.server_name, "ssh");

    let v2 = &config.visitors[1];
    assert_eq!(v2.kind, "xtcp");
    assert_eq!(v2.server_name, "rdp");
}

#[test]
fn test_proxy_config_secret_key_is_optional() {
    let proxy = ProxyConfig {
        name: "no_secret".to_string(),
        kind: "tcp".to_string(),
        local_ip: "127.0.0.1".to_string(),
        local_port: 80,
        remote_port: Some(8080),
        ..Default::default()
    };
    assert!(proxy.secret_key.is_none());
}

#[test]
fn test_health_check_config_tcp() {
    let config = HealthCheckConfig {
        kind: "tcp".to_string(),
        interval_seconds: 30,
        timeout_seconds: 5,
        max_failed: 3,
        path: None,
    };
    assert_eq!(config.kind, "tcp");
    assert_eq!(config.interval_seconds, 30);
    assert_eq!(config.timeout_seconds, 5);
    assert_eq!(config.max_failed, 3);
}

#[test]
fn test_health_check_config_http() {
    let config = HealthCheckConfig {
        kind: "http".to_string(),
        interval_seconds: 10,
        timeout_seconds: 3,
        max_failed: 5,
        path: Some("/health".to_string()),
    };
    assert_eq!(config.kind, "http");
    assert_eq!(config.path, Some("/health".to_string()));
}

#[test]
fn test_proxy_with_health_check() {
    let proxy = ProxyConfig {
        name: "web_with_hc".to_string(),
        kind: "tcp".to_string(),
        local_ip: "127.0.0.1".to_string(),
        local_port: 8080,
        remote_port: Some(9000),
        health_check: Some(HealthCheckConfig {
            kind: "http".to_string(),
            interval_seconds: 10,
            timeout_seconds: 3,
            max_failed: 3,
            path: Some("/healthz".to_string()),
        }),
        ..Default::default()
    };
    assert_eq!(proxy.name, "web_with_hc");
    assert!(proxy.health_check.is_some());
    let hc = proxy.health_check.as_ref().unwrap();
    assert_eq!(hc.kind, "http");
    assert_eq!(hc.path.as_deref(), Some("/healthz"));
}

#[test]
fn test_hot_reload_config_merge() {
    let old_config = make_client_config(17000);
    let mut new_config = old_config.clone();
    new_config.proxies.push(ProxyConfig {
        name: "new_proxy".to_string(),
        kind: "tcp".to_string(),
        local_ip: "127.0.0.1".to_string(),
        local_port: 9090,
        remote_port: Some(9091),
        ..Default::default()
    });

    assert_eq!(new_config.proxies.len(), 2);
    assert_eq!(old_config.proxies.len(), 1);
    assert_eq!(new_config.proxies[1].name, "new_proxy");
}

#[test]
fn test_hot_reload_auth_change() {
    let old_config = make_client_config(17000);
    let mut new_config = old_config.clone();
    new_config.auth.token = Some("new_token".to_string());

    assert_eq!(old_config.auth.token, Some("test_token".to_string()));
    assert_eq!(new_config.auth.token, Some("new_token".to_string()));
}

#[test]
fn test_hot_reload_server_config() {
    let old_config = make_server_config(19000);
    let mut new_config = old_config.clone();
    new_config.allow_ports.push(PortRange {
        single: Some(19999),
        start: None,
        end: None,
    });

    assert_eq!(old_config.allow_ports.len(), 2);
    assert_eq!(new_config.allow_ports.len(), 3);
    assert_eq!(new_config.allow_ports[2].single, Some(19999));
}

#[test]
fn test_bandwidth_limit_transport_global_config() {
    let config = TransportConfig {
        bandwidth_limit: Some("20MB".to_string()),
        ..Default::default()
    };
    assert_eq!(config.bandwidth_limit, Some("20MB".to_string()));
}

#[test]
fn test_default_server_config() {
    let config = ServerConfig::default();
    assert_eq!(config.bind_addr, "0.0.0.0");
    assert_eq!(config.bind_port, 7000);
    assert!(config.vhost_http_port.is_none());
    assert!(config.allow_ports.is_empty());
}

#[test]
fn test_default_client_config() {
    let config = ClientConfig::default();
    assert_eq!(config.server_addr, "127.0.0.1");
    assert_eq!(config.server_port, 7000);
    assert!(config.proxies.is_empty());
}

#[test]
fn test_validate_server_config_missing_port() {
    let config = ServerConfig {
        bind_port: 0,
        ..Default::default()
    };
    let result = ConfigLoader::validate_server_config(&config);
    assert!(result.is_err());
}

#[test]
fn test_validate_server_config_success() {
    let config = ServerConfig {
        bind_port: 9300,
        ..Default::default()
    };
    let result = ConfigLoader::validate_server_config(&config);
    assert!(result.is_ok());
}

#[test]
fn test_validate_client_config_missing_addr() {
    let config = ClientConfig {
        server_addr: "".to_string(),
        ..Default::default()
    };
    let result = ConfigLoader::validate_client_config(&config);
    assert!(result.is_err());
}

#[test]
fn test_validate_client_config_missing_port() {
    let config = ClientConfig {
        server_port: 0,
        ..Default::default()
    };
    let result = ConfigLoader::validate_client_config(&config);
    assert!(result.is_err());
}

#[test]
fn test_validate_client_config_success() {
    let config = ClientConfig {
        server_addr: "example.com".to_string(),
        server_port: 9300,
        ..Default::default()
    };
    let result = ConfigLoader::validate_client_config(&config);
    assert!(result.is_ok());
}

fn environment(pairs: &[(&str, &str)]) -> NameMap<String> {
    let mut env: NameMap<String> = NameMap::new();
    for (name, value) in pairs {
        env.insert(name.to_string(), value.to_string());
    }
    env
}

#[test]
fn test_replace_env_vars_simple() {
    let env = environment(&[("FRP_TEST_ADDR", "10.0.0.1")]);
    let result = ConfigLoader::replace_env_vars("${FRP_TEST_ADDR}:8080", &env, 100);
    assert_eq!(result.unwrap(), "10.0.0.1:8080");
}

#[test]
fn test_replace_env_vars_not_set() {
    let env = environment(&[]);
    let result = ConfigLoader::replace_env_vars("${NONEXISTENT_VAR}", &env, 100);
    assert_eq!(result.unwrap(), "");
}

#[test]
fn test_replace_env_vars_multiple() {
    let env = environment(&[("HOST", "localhost"), ("PORT", "9300")]);
    let result = ConfigLoader::replace_env_vars("${HOST}:${PORT}", &env, 100);
    assert_eq!(result.unwrap(), "localhost:9300");
}

#[test]
fn test_tls_config_defaults() {
    let config = TlsConfig::default();
    assert!(config.enable);
    assert!(!config.force);
    assert!(config.cert_file.is_none());
    assert!(config.key_file.is_none());
}

#[test]
fn test_transport_config_defaults() {
    let config = TransportConfig::default();
    assert_eq!(config.protocol, "tcp");
    assert!(config.tcp_mux);
    assert_eq!(config.pool_count, 10);
}

#[test]
fn test_auth_config_defaults() {
    let config = AuthConfig::default();
    assert_eq!(config.method, "token");
    assert!(config.token.is_none());
}

#[test]
fn test_merge_server_config() {
    let mut target = ServerConfig::default();
    let source = ServerConfig {
        bind_addr: "10.0.0.1".to_string(),
        bind_port: 9999,
        ..ServerConfig::default()
    };
    ConfigLoader::merge_server_config(&mut target, source);
    assert_eq!(target.bind_addr, "10.0.0.1");
    assert_eq!(target.bind_port, 9999);
}

#[test]
fn test_merge_client_config() {
    let mut target = ClientConfig::default();
    let source = ClientConfig {
        server_addr: "10.0.0.1".to_string(),
        server_port: 9999,
        user: Some("admin".to_string()),
        ..ClientConfig::default()
    };
    ConfigLoader::merge_client_config(&mut target, source);
    assert_eq!(target.server_addr, "10.0.0.1");
    assert_eq!(target.server_port, 9999);
    assert_eq!(target.user, Some("admin".to_string()));
}

#[test]
fn a_reference_to_itself_never_ends() {
    let env = environment(&[("LOOP", "${LOOP}")]);
    assert!(ConfigLoader::replace_env_vars("${LOOP}", &env, 100).is_none());
}

#[test]
fn expanded_text_is_not_expanded_again() {
    let env = environment(&[("A", "x"), ("B", "${A}y")]);
    let once = ConfigLoader::replace_env_vars("<${B}>", &env, 100).unwrap();
    assert_eq!(once, "<xy>");
    assert_eq!(ConfigLoader::replace_env_vars(&once, &env, 100).unwrap(), once);
}

#[test]
fn merging_appends_proxies_in_order() {
    let named = |n: &str| ProxyConfig {
        name: n.to_string(),
        ..Default::default()
    };
    let mut target = ClientConfig {
        proxies: vec![named("a"), named("b")],
        ..Default::default()
    };
    let source = ClientConfig {
        proxies: vec![named("c")],
        ..Default::default()
    };
    ConfigLoader::merge_client_config(&mut target, source);
    let names: Vec<&str> = target.proxies.iter().map(|p| p.name.as_str()).collect();
    assert_eq!(names, vec!["a", "b", "c"]);
}

#[test]
fn validation_says_what_is_missing() {
    let server = ServerConfig {
        bind_port: 0,
        ..Default::default()
    };
    match ConfigLoader::validate_server_config(&server) {
        Err(e) => assert_eq!(e.message(), "bind_port is required"),
        Ok(()) => panic!("a port is required"),
    }
}

#[test]
fn loading_merges_expands_and_validates() {
    let env = environment(&[("ADDR", "10.1.2.3")]);
    let parsed = ClientConfig {
        server_addr: "${ADDR}".to_string(),
        server_port: 7001,
        ..Default::default()
    };
    let loaded = ConfigLoader::load_client_config(parsed, Vec::new(), &env, 100);
    match loaded {
        Ok(c) => assert_eq!(c.server_addr, "10.1.2.3"),
        Err(e) => panic!("{}", e.message()),
    }
    let server = ConfigLoader::load_server_config(
        ServerConfig {
            bind_port: 0,
            ..Default::default()
        },
        Vec::new(),
        &env,
        100,
    );
    assert!(server.is_err());
}

#[test]
fn every_text_of_the_settings_may_refer_to_the_environment() {
    let mut env: NameMap<String> = NameMap::new();
    env.insert("FRP_TOKEN".to_string(), "s3cret".to_string());
    let token = || Some("${FRP_TOKEN}".to_string());
    let mut client = ClientConfig {
        user: token(),
        proxies: vec![ProxyConfig {
            secret_key: token(),
            custom_domains: Some(vec!["${FRP_TOKEN}.example.com".to_string()]),
            plugin: Some(PluginConfig {
                http_password: token(),
                ..Default::default()
            }),
            ..Default::default()
        }],
        visitors: vec![VisitorConfig {
            secret_key: token(),
            ..Default::default()
        }],
        ..Default::default()
    };
    client.auth.token = token();
    assert!(ConfigLoader::replace_environment_variables_client(&mut client, &env, usize::MAX));
    let expected = Some("s3cret");
    assert_eq!(client.auth.token.as_deref(), expected);
    assert_eq!(client.user.as_deref(), expected);
    assert_eq!(client.proxies[0].secret_key.as_deref(), expected);
    assert_eq!(client.proxies[0].custom_domains.as_ref().unwrap()[0], "s3cret.example.com");
    assert_eq!(client.proxies[0].plugin.as_ref().unwrap().http_password.as_deref(), expected);
    assert_eq!(client.visitors[0].secret_key.as_deref(), expected);
    let mut server = ServerConfig::default();
    server.auth.token = token();
    server.web_server.password = token();
    server.transport.tls = Some(TlsConfig {
        key_file: Some("/keys/${FRP_TOKEN}".to_string()),
        ..Default::default()
    });
    assert!(ConfigLoader::replace_environment_variables(&mut server, &env, usize::MAX));
    assert_eq!(server.auth.token.as_deref(), expected);
    assert_eq!(server.web_server.password.as_deref(), expected);
    assert_eq!(server.transport.tls.unwrap().key_file.as_deref(), Some("/keys/s3cret"));
}

#[test]
fn lists_of_a_second_file_follow_those_of_the_first() {
    let single = |port: u16| PortRange {
        start: None,
        end: None,
        single: Some(port),
    };
    let mut target = ServerConfig {
        allow_ports: vec![single(80)],
        includes: Some(vec!["a".to_string()]),
        work_conn_port: Some(1),
        ..Default::default()
    };
    let source = ServerConfig {
        allow_ports: vec![single(81)],
        includes: Some(vec!["b".to_string()]),
        max_ports_per_user: Some(3),
        custom_404_page: Some("404.html".to_string()),
        ..Default::default()
    };
    ConfigLoader::merge_server_config(&mut target, source);
    assert_eq!(target.allow_ports, vec![single(80), single(81)]);
    assert_eq!(target.includes, Some(vec!["a".to_string(), "b".to_string()]));
    assert_eq!(target.work_conn_port, Some(1));
    assert_eq!(target.max_ports_per_user, Some(3));
    assert_eq!(target.custom_404_page.as_deref(), Some("404.html"));
}

#[test]
fn encryption_is_on_by_default() {
    let tls = TransportConfig::default().tls.unwrap();
    assert!(tls.enable);
    assert!(tls.cert_file.is_none());
}
