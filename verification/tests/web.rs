use rust_frp::config::ProxyConfig;
use rust_frp::control::ControlManager;
use rust_frp::http::HttpRequestInfo;
use rust_frp::names::NameMap;
use rust_frp::text::{lines, split, split_whitespace, trim};
use rust_frp::vhost::{answer_vhost_request, HttpVhostRouter, VhostAnswer};
use rust_frp::web::{
    answer_login, answer_reload, credentials_match, find_field, form_field, make_session,
    may_show_page, session_valid, web_login, LoginAnswer,
};
use std::sync::Arc;

#[test]
fn test_http_request_parse() {
    let request = b"GET /path HTTP/1.1\r\nHost: example.com\r\nUser-Agent: test\r\n\r\n";

    let request_str = String::from_utf8_lossy(request);
    assert!(request_str.contains("GET /path HTTP/1.1"));
    assert!(request_str.contains("Host: example.com"));

    let info = HttpRequestInfo::parse(request).unwrap();
    assert_eq!(info.method, "GET");
    assert_eq!(info.path, "/path");
    assert_eq!(info.version, "HTTP/1.1");
    assert_eq!(info.host, "example.com");
    assert_eq!(info.headers.get("user-agent").unwrap(), "test");
    assert!(!info.is_websocket_upgrade());
}

#[test]
fn test_websocket_upgrade_detection() {
    let ws_request = b"GET /ws HTTP/1.1\r\nHost: example.com\r\nUpgrade: websocket\r\nConnection: Upgrade\r\nSec-WebSocket-Key: dGhlIHNhbXBsZSBub25jZQ==\r\n\r\n";

    let request_str = String::from_utf8_lossy(ws_request);
    assert!(request_str.contains("Upgrade: websocket"));
    assert!(request_str.contains("Connection: Upgrade"));

    let info = HttpRequestInfo::parse(ws_request).unwrap();
    assert!(info.is_websocket_upgrade());
    let key = info.get_websocket_key().unwrap();
    assert_eq!(key, "dGhlIHNhbXBsZSBub25jZQ==");
    assert_eq!(
        HttpRequestInfo::generate_websocket_accept_key(key),
        "s3pPLMBiTxaQ9kYGzzhZRbK+xOo="
    );
}

#[test]
fn requests_need_three_words_and_a_host() {
    assert!(HttpRequestInfo::parse(b"").is_none());
    assert!(HttpRequestInfo::parse(b"GET /\r\nHost: a\r\n\r\n").is_none());
    assert!(HttpRequestInfo::parse(b"GET / HTTP/1.1\r\n\r\n").is_none());
    let odd = HttpRequestInfo::parse(b"GET /\xff HTTP/1.1\r\nHost: a:80\r\n\r\n").unwrap();
    assert_eq!(odd.path, "/\u{fffd}");
    assert_eq!(odd.host, "a");
}

fn routed() -> HttpVhostRouter {
    let mut router = HttpVhostRouter::new();
    let config = Arc::new(ProxyConfig {
        name: "web".to_string(),
        kind: "http".to_string(),
        custom_domains: Some(vec!["test.example.com".to_string()]),
        ..Default::default()
    });
    router.register_proxy("web".to_string(), vec!["test.example.com".to_string()], config);
    router
}

#[test]
fn requests_are_routed_by_their_host() {
    let router = routed();
    let mut owners: NameMap<String> = NameMap::new();
    let mut controls: ControlManager<u8> = ControlManager::new();
    let request = b"GET / HTTP/1.1\r\nHost: test.example.com\r\n\r\n";
    match answer_vhost_request(request, &router, &owners, &controls) {
        VhostAnswer::Unreachable { proxy_name, text } => {
            assert_eq!(proxy_name, "web");
            assert!(text.contains("not registered by any client"));
        }
        _ => panic!("nobody offers the proxy"),
    }
    owners.insert("web".to_string(), "run".to_string());
    match answer_vhost_request(request, &router, &owners, &controls) {
        VhostAnswer::Unreachable { proxy_name, text } => {
            assert_eq!(proxy_name, "web");
            assert!(text.contains("Message channel not found"));
        }
        _ => panic!("the client is gone"),
    }
    controls.add("run".to_string(), 1);
    match answer_vhost_request(request, &router, &owners, &controls) {
        VhostAnswer::Forward { proxy_name, run_id } => {
            assert_eq!(proxy_name, "web");
            assert_eq!(run_id, "run");
        }
        _ => panic!("the client is reachable"),
    }
    let other = b"GET / HTTP/1.1\r\nHost: other.org\r\n\r\n";
    match answer_vhost_request(other, &router, &owners, &controls) {
        VhostAnswer::Respond(t) => assert_eq!(
            t,
            "HTTP/1.1 404 Not Found\r\nContent-Type: text/plain\r\nContent-Length: 35\r\n\r\nProxy not found for host: other.org"
        ),
        _ => panic!("no proxy serves this host"),
    }
    assert!(matches!(
        answer_vhost_request(b"", &router, &owners, &controls),
        VhostAnswer::Closed
    ));
    match answer_vhost_request(b"x", &router, &owners, &controls) {
        VhostAnswer::Respond(t) => assert!(t.starts_with("HTTP/1.1 400 ")),
        _ => panic!("that is no request"),
    }
}

#[test]
fn a_proxy_that_left_serves_no_host() {
    let mut router = routed();
    assert_eq!(router.find_proxy_by_host("test.example.com"), Some("web".to_string()));
    assert!(router.get_proxy_config("web").is_some());
    router.unregister_proxy("web");
    assert_eq!(router.find_proxy_by_host("test.example.com"), None);
}

#[test]
fn sessions_hold_the_credentials() {
    let session = make_session("admin", "s3cret");
    assert_eq!(session, "YWRtaW46czNjcmV0");
    let cookies = format!("a=b; frp_session={}; c=d", session);
    assert!(session_valid(&cookies, "admin", "s3cret"));
    assert!(!session_valid(&cookies, "admin", "other"));
    assert!(!session_valid("frp_session=%%%", "admin", "s3cret"));
    assert_eq!(make_session("ab", "c"), "YWI6Yw==");
    assert!(session_valid("frp_session=YWI6Yw==", "ab", "c"));
    assert!(credentials_match(Some(b"admin:s3cret".to_vec()), "admin", "s3cret"));
    assert!(!credentials_match(Some(b"admin".to_vec()), "admin", "s3cret"));
    assert!(!credentials_match(None, "admin", "s3cret"));
}

#[test]
fn pages_need_a_session() {
    assert!(may_show_page("/login", None, "admin", "pw"));
    assert!(may_show_page("/metrics", None, "admin", "pw"));
    assert!(!may_show_page("/status", None, "admin", "pw"));
    let cookies = format!("frp_session={}", make_session("admin", "pw"));
    assert!(may_show_page("/status", Some(&cookies), "admin", "pw"));
}

#[test]
fn forms_are_decoded() {
    let body = "username=admin&password=a%20b%26c";
    assert_eq!(find_field(body, "username").unwrap(), "admin");
    assert_eq!(form_field(body, "password"), "a b&c");
    assert_eq!(form_field(body, "none"), "");
}

#[test]
fn logins_of_the_web_page() {
    match answer_login("username=admin&password=pw", "admin", "pw") {
        LoginAnswer::Accepted { cookie } => {
            assert!(cookie.starts_with("frp_session="));
            assert!(cookie.ends_with("; HttpOnly; Path=/"));
            let session = cookie.split(';').next().unwrap().to_string();
            assert!(may_show_page("/status", Some(&session), "admin", "pw"));
        }
        LoginAnswer::Unauthorized => panic!("the password is right"),
    }
    assert!(matches!(
        answer_login("username=admin&password=no", "admin", "pw"),
        LoginAnswer::Unauthorized
    ));
    assert_eq!(answer_reload(false, false).status, 503);
    assert_eq!(answer_reload(true, true).status, 200);
    assert_eq!(answer_reload(true, false).status, 500);
    assert_eq!(answer_reload(true, true).text, "Reload signal sent");
    assert!(!answer_reload(true, false).success);
}

#[test]
fn pages_are_open_without_a_name_and_a_password() {
    let both = web_login(Some("u"), Some("p"), Some("x"), Some("y"));
    assert!(both.required);
    assert_eq!((both.user.as_str(), both.password.as_str()), ("u", "p"));
    let one = web_login(Some("u"), None, None, Some("y"));
    assert!(!one.required);
    assert_eq!((one.user.as_str(), one.password.as_str()), ("admin", "y"));
}

#[test]
fn texts_are_cut_as_the_standard_library_cuts_them() {
    let t = " a\u{3000}b \r\n\tc\r\n\r\nd";
    let by_std: Vec<String> = t.lines().map(|l| l.to_string()).collect();
    assert_eq!(lines(t), by_std);
    let words: Vec<String> = t.split_whitespace().map(|w| w.to_string()).collect();
    assert_eq!(split_whitespace(t), words);
    assert_eq!(trim("\u{2003} x \n"), "x");
    let parts: Vec<String> = "a..b.".split('.').map(|p| p.to_string()).collect();
    assert_eq!(split("a..b.", '.'), parts);
}

#[test]
fn names_keep_their_order_and_latest_value() {
    let mut m: NameMap<u8> = NameMap::new();
    m.insert("b".to_string(), 1);
    m.insert("a".to_string(), 2);
    m.insert("b".to_string(), 3);
    assert_eq!(m.len(), 2);
    assert_eq!(m.name_at(0), "b");
    assert_eq!(m.get("b"), Some(&3));
    assert_eq!(m.remove("b"), Some(3));
    assert_eq!(m.remove("b"), None);
    assert!(!m.contains("b"));
    assert_eq!(*m.value_at(0), 2);
    m.clear();
    assert_eq!(m.len(), 0);
}
