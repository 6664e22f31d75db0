use rust_frp::streams::NetError;
use rust_frp::tls::{
    choose_key, key_from, read_certs, read_key, PemKey, ServerIdentity, ServerTrust, TlsConfig,
};

fn section(label: &str, base64: &str) -> String {
    format!("-----BEGIN {}-----\n{}\n-----END {}-----\n", label, base64, label)
}

fn cert(base64: &str) -> String {
    section("CERTIFICATE", base64)
}

fn pkcs8(base64: &str) -> String {
    section("PRIVATE KEY", base64)
}

fn rsa(base64: &str) -> String {
    section("RSA PRIVATE KEY", base64)
}

fn cut_off() -> String {
    "-----BEGIN CERTIFICATE-----\nAQID\n".to_string()
}

const CUT_OFF: &str = "PEM decode error: section end \"CERTIFICATE\" missing";

fn message<T>(r: Result<T, NetError>) -> String {
    match r {
        Ok(_) => "no error".to_string(),
        Err(e) => e.message(),
    }
}

fn identity(r: Result<TlsConfig, NetError>) -> ServerIdentity {
    match r {
        Ok(TlsConfig { server: Some(id), client: None }) => id,
        _ => panic!("not a server"),
    }
}

fn roots(r: Result<TlsConfig, NetError>) -> Vec<Vec<u8>> {
    match r {
        Ok(TlsConfig { server: None, client: Some(ServerTrust::Roots(roots)) }) => roots,
        _ => panic!("not a client with roots of its own"),
    }
}

#[test]
fn certificates_are_read_in_order() {
    let pem = format!("a comment\n{}{}{}", cert("AQID"), pkcs8("CQk="), cert("BAU="));
    assert_eq!(read_certs(pem.as_bytes()).unwrap(), vec![vec![1, 2, 3], vec![4, 5]]);
    assert!(read_certs(b"").unwrap().is_empty());
    assert!(read_certs(pkcs8("CQk=").as_bytes()).unwrap().is_empty());
}

#[test]
fn one_broken_section_spoils_the_file() {
    let pem = format!("{}{}", cert("AQID"), cut_off());
    assert_eq!(message(read_certs(pem.as_bytes())), CUT_OFF);
    assert!(matches!(read_certs(cert("A*ID").as_bytes()), Err(NetError::PemDecode(_))));
    let pem = format!("{}{}", pkcs8("AQID"), cut_off());
    assert_eq!(message(read_key(pem.as_bytes(), "none")), CUT_OFF);
}

#[test]
fn pkcs8_key_goes_before_rsa_key() {
    let pem = format!("{}{}{}", rsa("CQk="), pkcs8("AQID"), pkcs8("BAU="));
    assert!(matches!(read_key(pem.as_bytes(), "none"), Ok(PemKey::Pkcs8(k)) if k == [1, 2, 3]));
}

#[test]
fn rsa_key_is_used_without_a_pkcs8_key() {
    let pem = format!("{}{}{}", cert("AQID"), rsa("CQk="), rsa("BAU="));
    assert!(matches!(read_key(pem.as_bytes(), "none"), Ok(PemKey::Pkcs1(k)) if k == [9, 9]));
}

#[test]
fn file_without_a_key_is_refused() {
    assert_eq!(message(read_key(b"", "none here")), "none here");
    assert_eq!(message(read_key(section("EC PRIVATE KEY", "AQID").as_bytes(), "none")), "none");
}

#[test]
fn key_is_chosen_among_those_read() {
    assert!(choose_key(vec![], vec![]).is_none());
    let key = choose_key(vec![vec![1], vec![2]], vec![vec![3]]);
    assert!(matches!(key, Some(PemKey::Pkcs8(k)) if k == [1]));
    let key = choose_key(vec![], vec![vec![3], vec![4]]);
    assert!(matches!(key, Some(PemKey::Pkcs1(k)) if k == [3]));

    let broken = || Err("broken".to_string());
    let key = key_from(Ok(vec![vec![1]]), broken(), "none");
    assert!(matches!(key, Ok(PemKey::Pkcs8(k)) if k == [1]));
    assert_eq!(message(key_from(broken(), Ok(vec![vec![1]]), "none")), "PEM decode error: broken");
    assert_eq!(message(key_from(Ok(vec![]), broken(), "none")), "PEM decode error: broken");
    assert_eq!(message(key_from(Ok(vec![]), Ok(vec![]), "none")), "none");
}

#[test]
fn server_shows_its_chain_and_its_key() {
    let chain = format!("{}{}", cert("AQID"), cert("BAU="));
    let id = identity(TlsConfig::new_server(chain.as_bytes(), rsa("CQk=").as_bytes()));
    assert_eq!(id.chain, vec![vec![1, 2, 3], vec![4, 5]]);
    assert!(matches!(id.key, PemKey::Pkcs1(k) if k == [9, 9]));

    let id = identity(TlsConfig::new_server_with_builtin_cert(
        cert("AQID").as_bytes(),
        pkcs8("CQk=").as_bytes(),
    ));
    assert_eq!(id.chain, vec![vec![1, 2, 3]]);
    assert!(matches!(id.key, PemKey::Pkcs8(k) if k == [9, 9]));
}

#[test]
fn server_without_a_key_is_refused() {
    let chain = cert("AQID");
    assert_eq!(
        message(TlsConfig::new_server(chain.as_bytes(), chain.as_bytes())),
        "No private key found in file"
    );
    assert_eq!(
        message(TlsConfig::new_server_with_builtin_cert(chain.as_bytes(), b"")),
        "No private key found in builtin cert"
    );
}

#[test]
fn broken_chain_is_reported_before_a_missing_key() {
    let chain = cut_off();
    assert_eq!(message(TlsConfig::new_server(chain.as_bytes(), b"")), CUT_OFF);
    assert_eq!(message(TlsConfig::new_server_with_builtin_cert(chain.as_bytes(), b"")), CUT_OFF);
}

#[test]
fn client_trusts_all_certificates_of_its_file() {
    let pem = format!("{}{}", cert("AQID"), cert("BAU="));
    assert_eq!(
        roots(TlsConfig::new_client_with_ca_file(pem.as_bytes())),
        vec![vec![1, 2, 3], vec![4, 5]]
    );
    assert!(roots(TlsConfig::new_client_with_ca_file(b"")).is_empty());
    assert_eq!(message(TlsConfig::new_client_with_ca_file(cut_off().as_bytes())), CUT_OFF);
}

#[test]
fn client_trusts_the_first_builtin_certificate() {
    let pem = format!("{}{}", cert("AQID"), cert("BAU="));
    assert_eq!(
        roots(TlsConfig::new_client_trusting_builtin(pem.as_bytes())),
        vec![vec![1, 2, 3]]
    );
    assert_eq!(
        message(TlsConfig::new_client_trusting_builtin(b"")),
        "No certificate found in builtin cert"
    );
    assert_eq!(message(TlsConfig::new_client_trusting_builtin(cut_off().as_bytes())), CUT_OFF);
}

#[test]
fn only_servers_accept_and_only_clients_connect() {
    let client = TlsConfig::new_client_insecure().unwrap();
    assert!(matches!(client.connecting(), Ok(ServerTrust::Anyone)));
    assert_eq!(client.accepting().err(), Some("not a server config"));
    let client = TlsConfig::new_client().unwrap();
    assert!(matches!(client.connecting(), Ok(ServerTrust::PublicRoots)));

    let server = TlsConfig::new_server(cert("AQID").as_bytes(), pkcs8("CQk=").as_bytes()).unwrap();
    assert_eq!(server.accepting().map(|id| id.chain.len()), Ok(1));
    assert_eq!(server.connecting().err(), Some("not a client config"));
}
