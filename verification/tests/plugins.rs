use rust_frp::config::PluginConfig;
use rust_frp::plugin::{
    BuiltinKind, BuiltinPlugin, BuiltinPluginFactory, FileLookup, HttpProxyPlugin, Plugin,
    PluginAction, PluginEvent, PluginFactory, PluginManager, Socks5Plugin, StaticFilePlugin,
    TlsBridgePlugin, TlsOffloadPlugin, UnixDomainSocketPlugin,
};

fn plugin_cfg(kind: &str, local_addr: &str) -> PluginConfig {
    PluginConfig {
        kind: kind.to_string(),
        local_addr: Some(local_addr.to_string()),
        ..Default::default()
    }
}

#[test]
fn test_plugin_factory_registration_and_validation() {
    let mgr: PluginManager<BuiltinPluginFactory> = PluginManager::new();

    let echo_addr = "127.0.0.1:9999".to_string();
    for t in ["https2http", "tls2raw", "https2https"] {
        let cfg = plugin_cfg(t, &echo_addr);
        assert!(
            mgr.create_plugin(&cfg).is_ok(),
            "{} should be registered and creatable with builtin cert",
            t
        );
    }

    let cfg = PluginConfig {
        kind: "https2http".to_string(),
        ..Default::default()
    };
    let msg = match mgr.create_plugin(&cfg) {
        Err(e) => e.message(),
        Ok(_) => panic!("should fail without local_addr"),
    };
    assert!(msg.contains("local_addr is required"));

    let cfg = PluginConfig {
        kind: "tls2raw".to_string(),
        local_addr: Some(echo_addr),
        crt_path: Some("/nonexistent.crt".to_string()),
        key_path: None,
        ..Default::default()
    };
    assert!(mgr.create_plugin(&cfg).is_err());
}

fn problem(kind: &str) -> String {
    let mgr: PluginManager<BuiltinPluginFactory> = PluginManager::default();
    let cfg = PluginConfig {
        kind: kind.to_string(),
        ..Default::default()
    };
    match mgr.create_plugin(&cfg) {
        Err(e) => e.message(),
        Ok(_) => String::new(),
    }
}

#[test]
fn settings_that_are_missing_are_named() {
    assert_eq!(
        problem("unix_domain_socket"),
        "unix_path is required for unix_domain_socket plugin"
    );
    assert_eq!(problem("static_file"), "local_path is required for static_file plugin");
    assert_eq!(problem("http_proxy"), "");
    assert_eq!(problem("socks5"), "");
    assert_eq!(problem("ftp"), "unsupported plugin type: ftp");
}

#[test]
fn kinds_can_be_added_and_taken_away() {
    let mut mgr: PluginManager<BuiltinPluginFactory> = PluginManager::new();
    let cfg = plugin_cfg("mine", "x");
    assert!(mgr.create_plugin(&cfg).is_err());
    mgr.register_plugin(
        "mine",
        BuiltinPluginFactory {
            kind: BuiltinKind::Socks5,
        },
    );
    match mgr.create_plugin(&cfg) {
        Ok(p) => assert!(matches!(
            p.handle(PluginEvent::Accepted),
            PluginAction::Read { max: 256 }
        )),
        Err(e) => panic!("{}", e.message()),
    }
    mgr.unregister_plugin("mine");
    assert!(mgr.create_plugin(&cfg).is_err());
}

fn socks() -> Socks5Plugin {
    Socks5Plugin::new(&PluginConfig::default()).unwrap()
}

fn socks_target(bytes: &[u8]) -> Result<String, String> {
    match socks().handle(PluginEvent::NextData(bytes.to_vec())) {
        PluginAction::Connect { target } => Ok(target),
        PluginAction::Fail(e) => Err(e.message()),
        _ => panic!("neither a target nor an error"),
    }
}

#[test]
fn socks_requests_name_their_target() {
    assert_eq!(
        socks_target(&[5, 1, 0, 1, 127, 0, 0, 1, 0x1f, 0x90]).unwrap(),
        "127.0.0.1:8080"
    );
    let mut named = vec![5, 1, 0, 3, 9];
    named.extend_from_slice(b"localhost");
    named.extend_from_slice(&[0, 80]);
    assert_eq!(socks_target(&named).unwrap(), "localhost:80");
    let odd = [5, 1, 0, 3, 1, 0xff, 0, 80];
    assert_eq!(socks_target(&odd).unwrap(), "\u{fffd}:80");
}

#[test]
fn socks_requests_that_are_wrong_are_refused() {
    assert_eq!(socks_target(&[5, 1, 0]).unwrap_err(), "invalid SOCKS5 request");
    assert_eq!(socks_target(&[4, 1, 0, 1]).unwrap_err(), "invalid SOCKS5 request");
    assert_eq!(socks_target(&[5, 2, 0, 1]).unwrap_err(), "unsupported SOCKS5 command");
    assert_eq!(
        socks_target(&[5, 1, 0, 1, 1, 2, 3, 4, 5]).unwrap_err(),
        "invalid SOCKS5 IPv4 address"
    );
    assert_eq!(socks_target(&[5, 1, 0, 3]).unwrap_err(), "invalid SOCKS5 domain address");
    assert_eq!(
        socks_target(&[5, 1, 0, 3, 2, b'a', 0, 80]).unwrap_err(),
        "invalid SOCKS5 domain address"
    );
    assert_eq!(socks_target(&[5, 1, 0, 4]).unwrap_err(), "IPv6 not supported");
    assert_eq!(socks_target(&[5, 1, 0, 9]).unwrap_err(), "invalid SOCKS5 address type");
}

#[test]
fn socks_begins_with_a_greeting() {
    match socks().handle(PluginEvent::FirstData(vec![5, 1, 0])) {
        PluginAction::SendAndRead { data, max } => {
            assert_eq!(data, vec![5, 0]);
            assert_eq!(max, 256);
        }
        _ => panic!("the greeting is answered"),
    }
    match socks().handle(PluginEvent::FirstData(vec![4, 1])) {
        PluginAction::Fail(e) => assert_eq!(e.message(), "invalid SOCKS5 version"),
        _ => panic!("version 4"),
    }
    match socks().handle(PluginEvent::Connected) {
        PluginAction::SendAndBridge { data } => {
            assert_eq!(data, vec![5, 0, 0, 1, 0, 0, 0, 0, 0, 0])
        }
        _ => panic!("the client is told"),
    }
    assert!(matches!(socks().handle(PluginEvent::Secured), PluginAction::Close));
}

fn files(prefix: Option<&str>) -> StaticFilePlugin {
    StaticFilePlugin::new(&PluginConfig {
        local_path: Some("/srv".to_string()),
        strip_prefix: prefix.map(|p| p.to_string()),
        ..Default::default()
    })
    .unwrap()
}

#[test]
fn paths_lead_to_files() {
    assert_eq!(files(None).build_file_path("/a/b.txt?x=1"), "/srv/a/b.txt");
    assert_eq!(files(None).build_file_path("/"), "/srv");
    assert_eq!(files(Some("static")).build_file_path("/static/a"), "/srv/a");
    assert_eq!(files(Some("static")).build_file_path("/other/a"), "/srv/other/a");
    assert_eq!(files(Some("static")).build_file_path("/static/"), "/srv");
}

#[test]
fn files_are_requested_with_get() {
    let p = files(None);
    match p.handle(PluginEvent::FirstData(b"GET /a HTTP/1.1\r\n\r\n".to_vec())) {
        PluginAction::FindFile { path, base } => {
            assert_eq!(path, "/srv/a");
            assert_eq!(base, "/srv");
        }
        _ => panic!("a file is looked for"),
    }
    match p.handle(PluginEvent::FirstData(b"PUT /a HTTP/1.1\r\n\r\n".to_vec())) {
        PluginAction::Respond { text } => assert!(text.starts_with("HTTP/1.1 405 ")),
        _ => panic!("the method is not allowed"),
    }
    match p.handle(PluginEvent::FirstData(b"GET /a".to_vec())) {
        PluginAction::Fail(e) => assert_eq!(e.message(), "invalid HTTP request line"),
        _ => panic!("two words"),
    }
    match p.handle(PluginEvent::FirstData(Vec::new())) {
        PluginAction::Fail(e) => assert_eq!(e.message(), "invalid HTTP request"),
        _ => panic!("nothing"),
    }
    match p.handle(PluginEvent::FileRead { len: 12 }) {
        PluginAction::SendFile { header } => assert_eq!(
            header,
            "HTTP/1.1 200 OK\r\nContent-Type: application/octet-stream\r\nContent-Length: 12\r\n\r\n"
        ),
        _ => panic!("the file is sent"),
    }
}

fn components(path: &str) -> Vec<Vec<u8>> {
    path.split('/').map(|c| c.as_bytes().to_vec()).collect()
}

fn lookup(path: &str, exists: bool, is_file: bool) -> String {
    let found = FileLookup::Resolved {
        path: components(path),
        base: components("/srv/www"),
        exists,
        is_file,
    };
    match StaticFilePlugin::serve_file(&found) {
        PluginAction::ReadFile => "read".to_string(),
        PluginAction::Respond { text } => text,
        _ => panic!("neither a file nor an answer"),
    }
}

#[test]
fn only_files_under_the_base_are_served() {
    assert_eq!(lookup("/srv/www/a", true, true), "read");
    assert!(lookup("/srv/wwwother/a", true, true).ends_with("Access forbidden"));
    assert!(lookup("/etc/passwd", true, true).starts_with("HTTP/1.1 403 "));
    assert!(lookup("/srv/www/a", false, false).starts_with("HTTP/1.1 404 "));
    assert!(lookup("/srv/www", true, false).ends_with("\r\n\r\nForbidden"));
    match StaticFilePlugin::serve_file(&FileLookup::Unresolved) {
        PluginAction::Respond { text } => assert!(text.ends_with("File not found")),
        _ => panic!("there is no such file"),
    }
}

#[test]
fn tunnels_are_opened_with_connect() {
    let p = HttpProxyPlugin::new(&PluginConfig::default()).unwrap();
    match p.handle_http_proxy_request("CONNECT 1.2.3.4:443 HTTP/1.1\r\n\r\n") {
        PluginAction::ConnectAddr { target } => assert_eq!(target, "1.2.3.4:443"),
        _ => panic!("a tunnel is asked for"),
    }
    match p.handle_http_proxy_request("GET / HTTP/1.1\r\n\r\n") {
        PluginAction::Fail(e) => assert_eq!(e.message(), "invalid HTTP CONNECT request"),
        _ => panic!("no tunnel is asked for"),
    }
    match p.handle(PluginEvent::Connected) {
        PluginAction::RespondAndBridge { text } => {
            assert_eq!(text, "HTTP/1.1 200 Connection Established\r\n\r\n")
        }
        _ => panic!("the client is told"),
    }
}

#[test]
fn a_unix_socket_is_connected_and_bridged() {
    let p = UnixDomainSocketPlugin::new(&PluginConfig {
        unix_path: Some("/var/run/docker.sock".to_string()),
        ..Default::default()
    })
    .unwrap();
    match p.handle(PluginEvent::Accepted) {
        PluginAction::ConnectUnix { path } => assert_eq!(path, "/var/run/docker.sock"),
        _ => panic!("the socket is connected"),
    }
    assert!(matches!(p.handle(PluginEvent::Connected), PluginAction::Bridge));
}

#[test]
fn tls_is_ended_and_may_begin_anew() {
    let offload = TlsOffloadPlugin::new(&plugin_cfg("https2http", "127.0.0.1:80")).unwrap();
    assert!(matches!(offload.handle(PluginEvent::Accepted), PluginAction::AcceptTls { .. }));
    match offload.handle(PluginEvent::Secured) {
        PluginAction::Connect { target } => assert_eq!(target, "127.0.0.1:80"),
        _ => panic!("the target is connected"),
    }
    assert!(matches!(offload.handle(PluginEvent::Connected), PluginAction::Bridge));
    let bridge = TlsBridgePlugin::new(&plugin_cfg("https2https", "127.0.0.1:443")).unwrap();
    assert!(matches!(bridge.handle(PluginEvent::Connected), PluginAction::SecureTarget));
    assert!(matches!(bridge.handle(PluginEvent::TargetSecured), PluginAction::Bridge));
    let factory = BuiltinPluginFactory {
        kind: BuiltinKind::TlsBridge,
    };
    assert!(matches!(
        factory.create(&plugin_cfg("https2https", "x")),
        Ok(BuiltinPlugin::TlsBridge(_))
    ));
}

#[test]
fn a_prefix_is_stripped_with_or_without_its_slash() {
    for prefix in ["/files", "files"] {
        let plugin = StaticFilePlugin::new(&PluginConfig {
            kind: "static_file".to_string(),
            local_path: Some("/var/www/html".to_string()),
            strip_prefix: Some(prefix.to_string()),
            ..Default::default()
        })
        .unwrap();
        assert_eq!(plugin.build_file_path("/files/a.txt?v=1"), "/var/www/html/a.txt");
        assert_eq!(plugin.build_file_path("/other/a.txt"), "/var/www/html/other/a.txt");
        assert_eq!(plugin.build_file_path("/files/"), "/var/www/html");
    }
}
