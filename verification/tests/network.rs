use rust_frp::mux::{
    classify_control_conn, stream_role, Command, Inbound, MuxDriver, MuxStep, Ready, StreamRole,
    TCP_MUX_MAGIC,
};
use rust_frp::pool::{ConnPool, GetStep, PoolConfig, PoolManager, PooledConn};
use rust_frp::random::{id_of, rand_id};
use rust_frp::rate::{parse_bandwidth_limit, read_limit, split_bandwidth_limit, write_limit};
use rust_frp::retry::{
    ConnectionError, IoErrorKind, RetryConfig, RetryState, RetryStep, RetryableError,
};
use rust_frp::streams::{
    accepted_conversation, classify_packet, conversation, make_punch_packet, new_conversation,
    KcpPeers, NetError, PacketClass, ReadBuffer, WriteStep, HANDSHAKE_MAGIC,
};
use rust_frp::stun::{
    build_binding_request, default_stun_servers, discover_step, join_transaction_id,
    new_binding_request, parse_mapped_address, probe_reply, DiscoverStep, Endpoint, StunError,
    MAGIC_COOKIE,
};
use std::time::Duration;

#[test]
fn test_pool_config_default() {
    let config = PoolConfig::default();
    assert_eq!(config.max_size, 10);
    assert_eq!(Duration::from_millis(config.connection_timeout_ms), Duration::from_secs(5));
}

#[test]
fn test_pool_config() {
    let config = PoolConfig::default();
    assert_eq!(config.max_size, 10);
    assert_eq!(Duration::from_millis(config.connection_timeout_ms), Duration::from_secs(5));
    assert_eq!(Duration::from_millis(config.max_idle_time_ms), Duration::from_secs(300));
}

#[test]
fn test_pooled_conn_expired() {
    let conn = PooledConn::new("connection", 0);

    assert!(!conn.is_expired(0, 60_000, 3_600_000));

    assert!(conn.is_expired(10, 5, 3_600_000));
}

#[test]
fn test_connection_pool() {
    let config = PoolConfig {
        max_size: 2,
        ..Default::default()
    };
    let mut pool: ConnPool<&str> = ConnPool::new(config);

    assert!(matches!(pool.get(0), GetStep::Connect { timeout_ms: 5000 }));
    let conn1 = pool.connected("first", 0);
    let stats1 = pool.get_stats();
    assert_eq!(stats1.current_in_use, 1);

    pool.put(conn1, true);
    let stats2 = pool.get_stats();
    assert_eq!(stats2.current_idle, 1);
    assert_eq!(stats2.current_in_use, 0);
}

#[test]
fn idle_connections_are_probed_and_reused() {
    let mut pool: ConnPool<&str> = ConnPool::new(PoolConfig::default());
    let a = pool.connected("a", 0);
    let b = pool.connected("b", 0);
    pool.put(a, true);
    pool.put(b, true);
    let conn = match pool.get(10) {
        GetStep::Probe(c) => c,
        _ => panic!("there are idle connections"),
    };
    assert_eq!(conn.conn, "b");
    let next = match pool.probed(conn, false, 10) {
        GetStep::Probe(c) => c,
        _ => panic!("there is another idle connection"),
    };
    assert_eq!(next.conn, "a");
    match pool.probed(next, true, 10) {
        GetStep::Reuse(c) => {
            assert_eq!(c.use_count, 1);
            assert_eq!(c.last_used_at, 10);
        }
        _ => panic!("the connection is healthy"),
    }
    let stats = pool.get_stats();
    assert_eq!(stats.total_created, 2);
    assert_eq!(stats.total_closed, 1);
    assert_eq!(stats.total_reused, 1);
    assert_eq!(stats.current_in_use, 1);
    assert_eq!(stats.current_idle, 0);
}

#[test]
fn sick_and_old_connections_are_closed() {
    let mut pool: ConnPool<u8> = ConnPool::new(PoolConfig {
        max_size: 2,
        ..Default::default()
    });
    let a = pool.connected(1, 0);
    let b = pool.connected(2, 0);
    pool.put(a, true);
    pool.put(b, false);
    assert_eq!(pool.get_stats().total_closed, 1);
    pool.cleanup(300_000);
    assert_eq!(pool.get_stats().total_closed, 1);
    pool.cleanup(300_001);
    assert_eq!(pool.get_stats().total_closed, 2);
    assert_eq!(pool.get_stats().current_idle, 0);
    assert!(matches!(pool.get(0), GetStep::Connect { .. }));
}

#[test]
fn a_pool_hands_out_no_more_connections_than_it_may() {
    let mut pool: ConnPool<u8> = ConnPool::new(PoolConfig {
        max_size: 1,
        ..Default::default()
    });
    assert!(matches!(pool.get(0), GetStep::Connect { .. }));
    let conn = pool.connected(1, 0);
    assert!(matches!(pool.get(0), GetStep::Wait));
    assert_eq!(pool.get_stats().current_in_use, 1);
    pool.put(conn, true);
    match pool.get(0) {
        GetStep::Probe(conn) => assert!(matches!(pool.probed(conn, true, 0), GetStep::Reuse(_))),
        _ => panic!("the connection came back"),
    }
    assert!(matches!(pool.get(0), GetStep::Wait));
    pool.forget();
    assert!(matches!(pool.get(0), GetStep::Connect { .. }));
    assert_eq!(pool.get_stats().total_closed, 1);
    let mut m: PoolManager<u8> = PoolManager::new(PoolConfig::default());
    m.get_or_create_pool("a");
    let mut pool = m.take_pool("a").unwrap();
    let _conn = pool.connected(1, 0);
    m.put_pool("a", pool);
    m.forget("a");
    assert_eq!(m.get_pool("a").unwrap().get_stats().current_in_use, 0);
}

#[test]
fn a_manager_keeps_one_pool_for_each_address() {
    let mut m: PoolManager<u8> = PoolManager::new(PoolConfig::default());
    assert!(m.get_pool("a:1").is_none());
    m.get_or_create_pool("a:1");
    m.get_or_create_pool("b:1");
    let mut pool = m.take_pool("a:1").unwrap();
    let conn = pool.connected(7, 0);
    m.put_pool("a:1", pool);
    m.put_back("a:1", conn, true);
    m.put_back("c:1", PooledConn::new(9, 0), true);
    let stats = m.get_all_stats();
    assert_eq!(stats.len(), 2);
    assert_eq!(stats.get("a:1").unwrap().current_idle, 1);
    m.cleanup_all(10_000_000);
    assert_eq!(m.get_pool("a:1").unwrap().get_stats().total_closed, 1);
    m.remove_pool("a:1");
    assert!(m.get_pool("a:1").is_none());
}

fn parsed_rate(s: &str) -> Option<f64> {
    parse_bandwidth_limit(s).and_then(|l| l.number.parse::<f64>().ok().map(|n| n * l.unit as f64))
}

#[test]
fn test_parse_bandwidth_limit() {
    assert_eq!(parsed_rate("10MB"), Some(10.0 * 1024.0 * 1024.0));
    assert_eq!(parsed_rate("1GB"), Some(1024.0 * 1024.0 * 1024.0));
    assert_eq!(parsed_rate("500KB"), Some(500.0 * 1024.0));
    assert_eq!(parsed_rate("100"), Some(100.0));
    assert_eq!(parsed_rate(""), None);
}

#[test]
fn test_bandwidth_limit_parse_kb() {
    let rate = parsed_rate("500KB");
    assert!(rate.is_some());
    assert_eq!(rate.unwrap(), 500.0 * 1024.0);
}

#[test]
fn test_bandwidth_limit_parse_mb() {
    let rate = parsed_rate("10MB");
    assert!(rate.is_some());
    assert_eq!(rate.unwrap(), 10.0 * 1024.0 * 1024.0);
}

#[test]
fn test_bandwidth_limit_parse_gb() {
    let rate = parsed_rate("1GB");
    assert!(rate.is_some());
    assert_eq!(rate.unwrap(), 1024.0 * 1024.0 * 1024.0);
}

#[test]
fn test_bandwidth_limit_parse_no_unit() {
    let rate = parsed_rate("1024");
    assert!(rate.is_some());
    assert_eq!(rate.unwrap(), 1024.0);
}

#[test]
fn test_bandwidth_limit_parse_empty() {
    assert_eq!(parsed_rate(""), None);
}

#[test]
fn test_bandwidth_limit_parse_case_insensitive() {
    let rate1 = parsed_rate("10mb");
    let rate2 = parsed_rate("10MB");
    assert_eq!(rate1, rate2);
    assert!(rate1.is_some());
}

#[test]
fn test_bandwidth_limit_proxy_config() {
    let config = rust_frp::config::ProxyConfig {
        name: "rate_limited_proxy".to_string(),
        kind: "tcp".to_string(),
        local_ip: "127.0.0.1".to_string(),
        local_port: 8080,
        remote_port: Some(9090),
        bandwidth_limit: Some("5MB".to_string()),
        ..Default::default()
    };
    assert_eq!(config.bandwidth_limit, Some("5MB".to_string()));
    let rate = parsed_rate(config.bandwidth_limit.as_deref().unwrap());
    assert_eq!(rate, Some(5.0 * 1024.0 * 1024.0));
}

#[test]
fn limits_are_read_with_their_units() {
    let l = split_bandwidth_limit("12 B");
    assert_eq!((l.number.as_str(), l.unit), ("12", 1));
    let l = parse_bandwidth_limit("  2 gb ").unwrap();
    assert_eq!((l.number.as_str(), l.unit), ("2", 1073741824));
    assert!(parse_bandwidth_limit("   ").is_none());
}

#[test]
fn limits_never_stop_a_transfer() {
    assert_eq!(read_limit(100, 1000, 4096), 1000);
    assert_eq!(read_limit(5000, 8192, 4096), 5000);
    assert_eq!(read_limit(10, 8192, 4096), 4096);
    assert_eq!(write_limit(10, 100, 4096), 100);
    assert_eq!(write_limit(5000, 8192, 4096), 5000);
}

fn grown(initial_ms: u64, factor: f64, attempt: u32) -> u64 {
    (initial_ms as f64 * factor.powi(attempt as i32 - 1)) as u64
}

#[test]
fn test_retry_config_default() {
    let config = RetryConfig::default();
    assert_eq!(config.max_retries, 3);
    assert_eq!(Duration::from_millis(config.initial_delay_ms), Duration::from_millis(100));
}

#[test]
fn test_calculate_delay() {
    let config = RetryConfig::default();

    let delay1 = config.calculate_delay(1, grown(config.initial_delay_ms, 2.0, 1));
    assert_eq!(delay1, 100);

    let delay2 = config.calculate_delay(2, grown(config.initial_delay_ms, 2.0, 2));
    assert_eq!(delay2, 200);

    let delay3 = config.calculate_delay(3, grown(config.initial_delay_ms, 2.0, 3));
    assert_eq!(delay3, 400);
}

#[test]
fn test_calculate_delay_max_cap() {
    let config = RetryConfig {
        max_retries: 10,
        initial_delay_ms: 1000,
        max_delay_ms: 5000,
        use_exponential_backoff: true,
    };

    let delay = config.calculate_delay(5, grown(config.initial_delay_ms, 10.0, 5));
    assert_eq!(Duration::from_millis(delay), Duration::from_secs(5));
}

#[test]
fn test_retry_config() {
    let config = RetryConfig::default();
    assert_eq!(config.max_retries, 3);

    let delay1 = config.calculate_delay(1, grown(config.initial_delay_ms, 2.0, 1));
    assert_eq!(Duration::from_millis(delay1), Duration::from_millis(100));

    let delay2 = config.calculate_delay(2, grown(config.initial_delay_ms, 2.0, 2));
    assert_eq!(Duration::from_millis(delay2), Duration::from_millis(200));
}

#[test]
fn test_retry_mechanism() {
    let mut counter = 0;
    let retry_config = RetryConfig {
        max_retries: 2,
        initial_delay_ms: 10,
        ..Default::default()
    };
    let mut state = RetryState::new(retry_config.max_retries);
    let result: Result<_, ConnectionError> = loop {
        let count = counter;
        counter += 1;
        if count < 2 {
            let n = state.next_retry();
            let pause = retry_config.calculate_delay(n, grown(10, 2.0, n));
            if state.failed(pause) == RetryStep::GiveUp {
                break Err(ConnectionError::Other("temporary error".to_string()));
            }
        } else {
            break Ok(state.succeeded("success"));
        }
    };

    assert!(result.is_ok());
    assert_eq!(counter, 3);
    let result = result.unwrap();
    assert_eq!(result.attempts, 3);
    assert_eq!(result.total_delay_ms, 30);
}

#[test]
fn linear_pauses_and_presets() {
    let config = RetryConfig {
        use_exponential_backoff: false,
        ..RetryConfig::slow()
    };
    assert_eq!(config.calculate_delay(0, 7), 0);
    assert_eq!(config.calculate_delay(3, 7), 3000);
    assert_eq!(config.calculate_delay(u32::MAX, 7), 60_000);
    assert_eq!(RetryConfig::fast().initial_delay_ms, 50);
    assert_eq!(RetryConfig::fast().max_delay_ms, 5_000);
    assert_eq!(RetryConfig::slow().max_retries, 5);
}

#[test]
fn retrying_ends() {
    let mut state = RetryState::new(1);
    assert_eq!(state.failed(5), RetryStep::Wait { ms: 5 });
    assert_eq!(state.failed(5), RetryStep::GiveUp);
    assert_eq!(state.failed(5), RetryStep::GiveUp);
}

#[test]
fn connection_errors_by_their_kind() {
    let refused = ConnectionError::from_io(IoErrorKind::ConnectionRefused, "x".to_string());
    assert_eq!(refused.message(), "Connection refused");
    assert!(refused.is_retryable());
    let aborted = ConnectionError::from_io(IoErrorKind::ConnectionAborted, "x".to_string());
    assert_eq!(aborted.message(), "Connection reset");
    let late = ConnectionError::from_io(IoErrorKind::TimedOut, "x".to_string());
    assert_eq!(late.message(), "Connection timeout");
    let gone = ConnectionError::from_io(IoErrorKind::NotConnected, "gone".to_string());
    assert_eq!(gone.message(), "IO error: gone");
    assert!(gone.is_retryable());
    let other = ConnectionError::from_io(IoErrorKind::Other, "odd".to_string());
    assert!(!other.is_retryable());
    assert!(!ConnectionError::Other("x".to_string()).is_retryable());
}

#[test]
fn test_no_peers_error() {
    match KcpPeers::new(vec![], true) {
        Err(e) => assert_eq!(e.message(), "no peer addresses"),
        Ok(_) => panic!("there are no addresses"),
    }
}

#[test]
fn the_first_address_that_answers_is_the_peer() {
    let mut k = KcpPeers::new(
        vec!["a:1".to_string(), "a:1".to_string(), "b:2".to_string()],
        true,
    )
    .unwrap();
    assert_eq!(k.targets(), vec!["a:1".to_string(), "b:2".to_string()]);
    assert_eq!(k.punch_targets().unwrap().len(), 2);
    assert!(!k.has_activity());
    k.accepted_from("b:2");
    k.accepted_from("a:1");
    assert!(k.has_activity());
    assert_eq!(k.peer_addr(), Some("b:2".to_string()));
    assert_eq!(k.targets(), vec!["b:2".to_string()]);
    assert!(k.punch_targets().is_none());
    k.mark_dead();
    assert!(k.targets().is_empty());
    assert!(k.is_ended());
}

#[test]
fn the_handshake_byte_is_dropped_once() {
    let mut server = KcpPeers::new(vec!["a:1".to_string()], false).unwrap();
    assert_eq!(server.skip_handshake(&[]), 0);
    assert_eq!(server.skip_handshake(&[HANDSHAKE_MAGIC, 5]), 1);
    assert_eq!(server.skip_handshake(&[HANDSHAKE_MAGIC, 5]), 0);
    let mut client = KcpPeers::new(vec!["a:1".to_string()], true).unwrap();
    assert_eq!(client.skip_handshake(&[HANDSHAKE_MAGIC]), 0);
}

#[test]
fn writes_wait_for_the_window() {
    let mut k = KcpPeers::new(vec!["a:1".to_string()], true).unwrap();
    assert_eq!(k.write_step(100, 0, 128, 1000), WriteStep::Send { count: 100 });
    assert_eq!(k.write_step(100_000, 0, 128, 1000), WriteStep::Send { count: 64_000 });
    assert_eq!(k.write_step(100, 128, 128, 1000), WriteStep::Wait);
    k.close();
    assert_eq!(k.write_step(100, 0, 128, 1000), WriteStep::Broken);
}

#[test]
fn datagrams_are_told_apart() {
    assert_eq!(make_punch_packet(), b"rfrp-udp-punch".to_vec());
    assert_eq!(classify_packet(b"rfrp-udp-punch"), PacketClass::Punch);
    assert_eq!(classify_packet(b"rfrp-udp-punc!"), PacketClass::Short);
    assert_eq!(classify_packet(&[0u8; 23]), PacketClass::Short);
    assert_eq!(classify_packet(&[0u8; 24]), PacketClass::Kcp);
}

#[test]
fn conversations_are_read_from_packets() {
    assert_eq!(conversation(&[0x78, 0x56, 0x34, 0x12, 9]), Some(0x1234_5678));
    assert_eq!(conversation(&[1, 2, 3]), None);
    assert_eq!(accepted_conversation(&[0x78, 0x56, 0x34, 0x12]), 0x1234_5678);
    assert_eq!(new_conversation(Some(42)), 42);
    let drawn: Vec<u32> = (0..8).map(|_| new_conversation(None)).collect();
    assert!(drawn.iter().any(|n| *n != drawn[0]));
}

#[test]
fn packets_are_read_piece_by_piece() {
    let mut b = ReadBuffer::new();
    assert!(b.is_empty());
    assert_eq!(b.receive(b"hello world".to_vec(), 5), b"hello".to_vec());
    assert!(!b.is_empty());
    assert_eq!(b.take(1), b" ".to_vec());
    assert_eq!(b.take(100), b"world".to_vec());
    assert!(b.is_empty());
}

#[test]
fn net_errors_have_texts() {
    assert_eq!(NetError::Io("x".to_string()).message(), "I/O error: x");
    assert_eq!(NetError::Tls("x".to_string()).message(), "TLS error: x");
    assert_eq!(NetError::PemDecode("x".to_string()).message(), "PEM decode error: x");
    assert_eq!(NetError::NotServerConfig.message(), "not a TLS server config");
    assert_eq!(NetError::NotClientConfig.message(), "not a TLS client config");
    assert_eq!(NetError::TlsConfigNotSet.message(), "TLS config not set");
    assert_eq!(NetError::Other("x".to_string()).message(), "x");
}

#[test]
fn control_connections_are_told_by_their_first_byte() {
    let c = classify_control_conn(Some(TCP_MUX_MAGIC), true);
    assert!(c.mux && c.secure);
    let c = classify_control_conn(Some(0x16), true);
    assert!(!c.mux && c.secure);
    let c = classify_control_conn(None, false);
    assert!(!c.mux && !c.secure);
    assert_eq!(stream_role(0), StreamRole::Control);
    assert_eq!(stream_role(3), StreamRole::Work);
}

#[test]
fn those_who_wait_for_streams_are_served_in_order() {
    let mut d: MuxDriver<u32> = MuxDriver::new();
    let idle = Ready {
        inbound: Inbound::Nothing,
        outbound: true,
        command: Command::Open,
    };
    assert!(d.step(&idle) == MuxStep::Enqueue);
    d.enqueue(1);
    d.enqueue(2);
    assert!(d.wants_outbound());
    assert!(d.step(&idle) == MuxStep::Answer);
    let busy = Ready {
        inbound: Inbound::Stream,
        outbound: true,
        command: Command::Close,
    };
    assert!(d.step(&busy) == MuxStep::Deliver);
    assert_eq!(d.next_waiting(), Some(1));
    assert_eq!(d.next_waiting(), Some(2));
    assert_eq!(d.next_waiting(), None);
    let close = Ready {
        inbound: Inbound::Nothing,
        outbound: false,
        command: Command::Close,
    };
    assert!(d.step(&close) == MuxStep::CloseAndStop);
    d.stopped();
    assert!(d.is_closed());
}

fn build_response(tx_id: [u8; 12], ip: [u8; 4], port: u16) -> Vec<u8> {
    let x_port = port ^ (MAGIC_COOKIE >> 16) as u16;
    let x_addr = u32::from_be_bytes(ip) ^ MAGIC_COOKIE;

    let mut attr = vec![0u8; 8];
    attr[0..2].copy_from_slice(&0x0020u16.to_be_bytes());
    attr[2..4].copy_from_slice(&8u16.to_be_bytes());
    attr[4] = 0;
    attr[5] = 0x01;
    attr[6..8].copy_from_slice(&x_port.to_be_bytes());
    attr.extend_from_slice(&x_addr.to_be_bytes());

    let mut msg = Vec::with_capacity(20 + attr.len());
    msg.extend_from_slice(&0x0101u16.to_be_bytes());
    msg.extend_from_slice(&(attr.len() as u16).to_be_bytes());
    msg.extend_from_slice(&MAGIC_COOKIE.to_be_bytes());
    msg.extend_from_slice(&tx_id);
    msg.extend_from_slice(&attr);
    msg
}

#[test]
fn test_parse_mapped_address_xor() {
    let tx_id = [7u8; 12];
    let mapped = Endpoint {
        ip: u32::from_be_bytes([203, 0, 113, 7]),
        port: 54321,
    };
    let resp = build_response(tx_id, [203, 0, 113, 7], 54321);
    let parsed = parse_mapped_address(&resp).expect("parse");
    assert_eq!(parsed, mapped);
}

#[test]
fn test_parse_rejects_garbage() {
    assert!(parse_mapped_address(&[0u8; 10]).is_err());
    let mut msg = vec![0u8; 24];
    msg[0..2].copy_from_slice(&0x0111u16.to_be_bytes());
    assert!(parse_mapped_address(&msg).is_err());
}

#[test]
fn a_reply_must_carry_the_transaction() {
    let good = build_response([7u8; 12], [1, 2, 3, 4], 80);
    assert_eq!(probe_reply(&good, [7u8; 12]).unwrap().port, 80);
    match probe_reply(&good, [8u8; 12]) {
        Err(e) => assert_eq!(e.message(), "STUN transaction id mismatch"),
        Ok(_) => panic!("another transaction"),
    }
    let mut bad = good.clone();
    bad[4] = 0;
    assert!(matches!(parse_mapped_address(&bad), Err(StunError::CookieMismatch)));
    bad = good.clone();
    bad[25] = 2;
    assert!(parse_mapped_address(&bad).is_err());
    bad = good.clone();
    bad[22] = 0xff;
    assert!(matches!(parse_mapped_address(&bad), Err(StunError::AttributeOverflow)));
    assert!(matches!(parse_mapped_address(&good[..19]), Err(StunError::TooShort)));
}

#[test]
fn requests_carry_a_random_transaction() {
    let id = join_transaction_id(0x0102_0304, 0x0506_0708_090a_0b0c);
    assert_eq!(id, [1, 2, 3, 4, 5, 6, 7, 8, 9, 10, 11, 12]);
    let request = build_binding_request(id);
    assert_eq!(request[..8], [0, 1, 0, 0, 0x21, 0x12, 0xA4, 0x42]);
    assert_eq!(request[8..], id);
    let (a, sent) = new_binding_request();
    assert_eq!(sent, build_binding_request(a));
    let (b, _) = new_binding_request();
    assert_ne!(a, b);
}

#[test]
fn test_stun_all_servers_failed() {
    let servers = vec!["127.0.0.1:1".to_string(), "b:2".to_string()];
    let mut errors: Vec<String> = Vec::new();
    assert!(matches!(discover_step(&servers, &errors), DiscoverStep::Probe(0)));
    errors.push("timeout".to_string());
    assert!(matches!(discover_step(&servers, &errors), DiscoverStep::Probe(1)));
    errors.push("refused".to_string());
    match discover_step(&servers, &errors) {
        DiscoverStep::Failed(t) => assert_eq!(
            t,
            "all STUN servers failed: ; 127.0.0.1:1: timeout; b:2: refused"
        ),
        DiscoverStep::Probe(_) => panic!("all failed"),
    }
    match discover_step(&Vec::new(), &Vec::new()) {
        DiscoverStep::Failed(t) => assert_eq!(t, "no STUN servers configured"),
        DiscoverStep::Probe(_) => panic!("there are none"),
    }
    assert_eq!(default_stun_servers().len(), 3);
}

#[test]
fn identifiers_are_letters_and_digits() {
    assert_eq!(id_of(&vec![0, 25, 26, 51, 52, 61]), "azAZ09");
    let id = rand_id(16);
    assert_eq!(id.len(), 16);
    assert!(id.chars().all(|c| c.is_ascii_alphanumeric()));
    assert_ne!(rand_id(16), rand_id(16));
    assert_eq!(rand_id(0), "");
}
