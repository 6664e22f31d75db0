use rust_frp::message::{
    message_len, read_message, write_message, CoreError, ReadError, MAX_MESSAGE_SIZE,
};

#[test]
fn test_max_message_size_constant() {
    assert_eq!(MAX_MESSAGE_SIZE, 10 * 1024 * 1024);
}

#[test]
fn test_read_write_message_roundtrip() {
    let body = b"{\"Ping\":{\"timestamp\":12345}}";
    let buf = write_message(body);
    match read_message(&buf) {
        Ok((read, used)) => {
            assert_eq!(read, body.to_vec());
            assert_eq!(used, buf.len());
            let value: serde_json::Value = serde_json::from_slice(&read).unwrap();
            assert_eq!(value["Ping"]["timestamp"], 12345);
        }
        Err(e) => panic!("{}", e.message()),
    }
}

#[test]
fn test_read_write_message_login_roundtrip() {
    let body = b"{\"Login\":{\"arch\":\"amd64\",\"os\":\"linux\",\"hostname\":\"h1\",\"pool_count\":10,\"user\":\"admin\",\"client_id\":\"c1\",\"version\":\"1.0\",\"timestamp\":1000,\"run_id\":\"r1\",\"token\":\"secret\",\"metas\":{},\"client_spec\":null}}";
    let buf = write_message(body);
    let (read, _) = read_message(&buf).unwrap();
    let value: serde_json::Value = serde_json::from_slice(&read).unwrap();
    assert_eq!(value["Login"]["hostname"], "h1");
    assert_eq!(value["Login"]["token"], "secret");
}

#[test]
fn test_all_error_types_are_send_sync() {
    fn assert_send_sync<T: Send + Sync>() {}
    assert_send_sync::<rust_frp::auth::AuthError>();
    assert_send_sync::<rust_frp::message::CoreError>();
    assert_send_sync::<rust_frp::config::ConfigError>();
    assert_send_sync::<rust_frp::streams::NetError>();
    assert_send_sync::<rust_frp::retry::ConnectionError>();
    assert_send_sync::<rust_frp::client::ClientError>();
}

#[test]
fn a_frame_begins_with_its_length() {
    assert_eq!(write_message(b"abc"), vec![0, 0, 0, 3, b'a', b'b', b'c']);
    let long = vec![0u8; 258];
    assert_eq!(write_message(&long)[..4], [0, 0, 1, 2]);
}

#[test]
fn what_follows_a_frame_is_left_alone() {
    let mut bytes = write_message(b"one");
    bytes.extend_from_slice(&write_message(b"two!"));
    let (first, used) = read_message(&bytes).unwrap();
    assert_eq!(first, b"one".to_vec());
    assert_eq!(used, 7);
    let (second, used) = read_message(&bytes[used..]).unwrap();
    assert_eq!(second, b"two!".to_vec());
    assert_eq!(used, 8);
}

#[test]
fn a_message_that_is_too_large_is_refused() {
    let header = [0x00, 0xA0, 0x00, 0x01];
    match message_len(&header) {
        Err(e) => {
            assert_eq!(e, ReadError::TooLarge(10485761));
            assert_eq!(e.message(), "message size too large: 10485761 bytes (max: 10485760)");
            assert_eq!(
                CoreError::MessageTooLarge(10485761, MAX_MESSAGE_SIZE).message(),
                "message too large: 10485761 bytes (max: 10485760)"
            );
        }
        Ok(_) => panic!("too large"),
    }
    assert_eq!(message_len(&[0x00, 0xA0, 0x00, 0x00]).unwrap(), 10485760);
}

#[test]
fn a_cut_frame_is_an_error() {
    let bytes = write_message(b"abcdef");
    assert!(read_message(&bytes[..3]).is_err());
    assert!(read_message(&bytes[..9]).is_err());
    assert_eq!(read_message(&[]), Err(ReadError::Truncated));
    assert_eq!(ReadError::Truncated.message(), "early eof");
}
