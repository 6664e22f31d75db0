use rust_frp::auth::{
    constant_time_compare, generate_work_conn_sign_key, sign_work_conn, AuthError, AuthManager,
    AuthVerifier, OidcAuthVerifier, TokenAuthVerifier, TokenClaims,
};
use rust_frp::config::{AuthConfig, OidcConfig};

#[test]
fn test_constant_time_compare_equal() {
    assert!(constant_time_compare(b"hello", b"hello"));
}

#[test]
fn test_constant_time_compare_different() {
    assert!(!constant_time_compare(b"hello", b"world"));
}

#[test]
fn test_constant_time_compare_different_length() {
    assert!(!constant_time_compare(b"hello", b"hell"));
    assert!(!constant_time_compare(b"hi", b"hello"));
}

#[test]
fn test_constant_time_compare_empty() {
    assert!(constant_time_compare(b"", b""));
}

#[test]
fn test_token_auth_verify_login_success() {
    let verifier = TokenAuthVerifier::new("secret123");
    let result = verifier.verify_login("user", "secret123", 0);
    assert!(result.is_ok());
}

#[test]
fn test_token_auth_verify_login_wrong_token() {
    let verifier = TokenAuthVerifier::new("secret123");
    let result = verifier.verify_login("user", "wrong_token", 0);
    assert!(result.is_err());
}

#[test]
fn test_token_auth_generate_sign() {
    let verifier = TokenAuthVerifier::new("secret123");
    let sign1 = verifier.generate_sign(1234567890);
    let sign2 = verifier.generate_sign(1234567890);
    assert_eq!(sign1, sign2);
}

#[test]
fn test_token_auth_generate_sign_different_timestamp() {
    let verifier = TokenAuthVerifier::new("secret123");
    let sign1 = verifier.generate_sign(111);
    let sign2 = verifier.generate_sign(222);
    assert_ne!(sign1, sign2);
}

#[test]
fn test_token_auth_verify_work_conn() {
    let verifier = TokenAuthVerifier::new("secret123");
    let result = verifier.verify_work_conn("user", "secret123", 0);
    assert!(result.is_ok());
}

#[test]
fn test_auth_manager_new_token() {
    let config = AuthConfig {
        method: "token".to_string(),
        token: Some("my_token".to_string()),
        oidc: None,
    };
    let manager = AuthManager::new(&config);
    assert!(manager.is_ok());
}

#[test]
fn test_auth_manager_new_missing_token() {
    let config = AuthConfig {
        method: "token".to_string(),
        token: None,
        oidc: None,
    };
    let manager = AuthManager::new(&config);
    assert!(manager.is_err());
}

#[test]
fn test_auth_manager_unsupported_method() {
    let config = AuthConfig {
        method: "unknown".to_string(),
        token: Some("token".to_string()),
        oidc: None,
    };
    let manager = AuthManager::new(&config);
    assert!(manager.is_err());
}

fn token_manager() -> AuthManager {
    let config = AuthConfig {
        method: "token".to_string(),
        token: Some("my_token".to_string()),
        oidc: None,
    };
    match AuthManager::new(&config) {
        Ok(m) => m,
        Err(e) => panic!("{}", e.message()),
    }
}

#[test]
fn test_auth_manager_encryption_key() {
    let manager = token_manager();
    assert!(manager.encryption_key().is_some());
    assert_eq!(manager.encryption_key().unwrap().len(), 32);
}

#[test]
fn test_auth_manager_encrypt_decrypt() {
    let manager = token_manager();
    let data = b"hello world";
    let encrypted = manager.encrypt(data).unwrap();
    let decrypted = manager.decrypt(&encrypted).unwrap();
    assert_eq!(decrypted, data);
}

#[test]
fn test_auth_manager_verify_login() {
    let manager = token_manager();
    assert!(manager.verify_login("user", "my_token", 0).is_ok());
    assert!(manager.verify_login("user", "wrong", 0).is_err());
}

#[test]
fn test_auth_manager_generate_work_conn_sign_key() {
    let manager = token_manager();
    let key1 = manager.generate_work_conn_sign_key("run_001").unwrap();
    let key2 = manager.generate_work_conn_sign_key("run_001").unwrap();
    assert_eq!(key1, key2);
    let key3 = manager.generate_work_conn_sign_key("run_002").unwrap();
    assert_ne!(key1, key3);
}

#[test]
fn test_auth_token_verification() {
    let config = AuthConfig {
        method: "token".to_string(),
        token: Some("test_token".to_string()),
        ..Default::default()
    };
    let manager = AuthManager::new(&config);
    assert!(manager.is_ok());
}

#[test]
fn test_hsmac_sign_roundtrip() {
    let config = AuthConfig {
        method: "token".to_string(),
        token: Some("my_secure_token".to_string()),
        ..Default::default()
    };
    let manager = AuthManager::new(&config).unwrap();
    let sign_key = manager.generate_work_conn_sign_key("run_abc").unwrap();
    assert!(!sign_key.is_empty());

    let sign_key2 = manager.generate_work_conn_sign_key("run_abc").unwrap();
    assert_eq!(sign_key, sign_key2);
}

fn oidc_config() -> OidcConfig {
    OidcConfig {
        issuer: "https://auth.example.com".to_string(),
        audience: "frp-app".to_string(),
        client_id: "my-client".to_string(),
        client_secret: "my-secret".to_string(),
        token_endpoint_url: "https://auth.example.com/token".to_string(),
    }
}

#[test]
fn test_oidc_config_default() {
    let oidc_config = OidcConfig::default();
    assert_eq!(oidc_config.issuer, "");
    assert_eq!(oidc_config.audience, "");
}

#[test]
fn test_auth_config_oidc_method() {
    let config = AuthConfig {
        method: "oidc".to_string(),
        token: None,
        oidc: Some(OidcConfig {
            issuer: "https://auth.example.com".to_string(),
            audience: "frp-app".to_string(),
            client_id: "my-client".to_string(),
            client_secret: "my-secret".to_string(),
            token_endpoint_url: "https://auth.example.com/token".to_string(),
        }),
    };
    assert_eq!(config.method, "oidc");
    assert!(config.oidc.is_some());
    assert_eq!(config.oidc.as_ref().unwrap().issuer, "https://auth.example.com");
}

#[test]
fn test_oidc_auth_manager_creation() {
    let config = AuthConfig {
        method: "oidc".to_string(),
        token: None,
        oidc: Some(OidcConfig {
            issuer: "https://auth.example.com".to_string(),
            audience: "frp-app".to_string(),
            client_id: "my-client".to_string(),
            client_secret: "my-secret".to_string(),
            token_endpoint_url: "https://auth.example.com/token".to_string(),
        }),
    };
    let result = AuthManager::new(&config);
    assert!(result.is_ok());
}

#[test]
fn test_oidc_auth_manager_missing_config() {
    let config = AuthConfig {
        method: "oidc".to_string(),
        token: None,
        oidc: None,
    };
    let result = AuthManager::new(&config);
    assert!(result.is_err());
}

fn problem(method: &str, oidc: Option<OidcConfig>) -> String {
    let config = AuthConfig {
        method: method.to_string(),
        token: None,
        oidc,
    };
    match AuthManager::new(&config) {
        Err(e) => e.message(),
        Ok(_) => panic!("these settings must be refused"),
    }
}

#[test]
fn each_auth_error_has_its_text() {
    let failed = token_manager().verify_login("user", "wrong", 0);
    assert!(matches!(failed, Err(AuthError::InvalidToken)));
    assert_eq!(AuthError::InvalidToken.message(), "invalid token");
    assert_eq!(problem("token", None), "token is required for token auth");
    assert_eq!(problem("magic", None), "unsupported auth method: magic");
    assert_eq!(problem("oidc", None), "oidc config is required for oidc auth");
    assert_eq!(
        AuthError::OidcConfigRequired.message(),
        "OIDC config is required for OIDC auth"
    );
    let manager = AuthManager::new(&AuthConfig {
        method: "oidc".to_string(),
        token: None,
        oidc: Some(oidc_config()),
    })
    .unwrap();
    match manager.encrypt(b"x") {
        Err(e) => assert_eq!(e.message(), "encryption key not set"),
        Ok(_) => panic!("there is no key"),
    }
    assert_eq!(AuthError::HmacSignError.message(), "HMAC signing failed");
    assert_eq!(AuthError::Internal("x".to_string()).message(), "internal error: x");
}

#[test]
fn encryption_key_is_the_hash_of_the_token() {
    let key = AuthManager::generate_encryption_key("abc");
    let expected: [u8; 32] = [
        0xba, 0x78, 0x16, 0xbf, 0x8f, 0x01, 0xcf, 0xea, 0x41, 0x41, 0x40, 0xde, 0x5d, 0xae, 0x22,
        0x23, 0xb0, 0x03, 0x61, 0xa3, 0x96, 0x17, 0x7a, 0x9c, 0xb4, 0x10, 0xff, 0x61, 0xf2, 0x00,
        0x15, 0xad,
    ];
    assert_eq!(key, expected.to_vec());
}

#[test]
fn signatures_are_base64_of_an_hmac() {
    let sign = sign_work_conn(b"key", "r");
    assert_eq!(sign.len(), 44);
    assert!(sign.ends_with('='));
    assert_ne!(sign, "work_conn:r");
}

#[test]
fn both_ends_sign_alike() {
    let server = token_manager().generate_work_conn_sign_key("run_001").unwrap();
    assert_eq!(server, generate_work_conn_sign_key("my_token", "run_001"));
    assert_ne!(server, generate_work_conn_sign_key("other", "run_001"));
}

#[test]
fn what_was_encrypted_can_be_decrypted() {
    let manager = token_manager();
    let long: Vec<u8> = (0..=255).collect();
    assert_eq!(manager.decrypt(&manager.encrypt(&long).unwrap()).unwrap(), long);
    assert_eq!(manager.decrypt(&manager.encrypt(b"").unwrap()).unwrap(), Vec::<u8>::new());
}

#[test]
fn a_manager_without_a_token_has_no_key() {
    let manager = AuthManager::new(&AuthConfig {
        method: "oidc".to_string(),
        token: None,
        oidc: Some(oidc_config()),
    })
    .unwrap();
    assert!(manager.encryption_key().is_none());
    assert!(manager.encrypt(b"x").is_err());
    assert!(manager.generate_work_conn_sign_key("r").is_err());
}

fn claims(exp: i64, iat: Option<i64>) -> TokenClaims {
    TokenClaims {
        alg: Some("HS256".to_string()),
        iss: Some("https://auth.example.com".to_string()),
        aud: Some("frp-app".to_string()),
        aud_list: None,
        exp: Some(exp),
        iat,
    }
}

#[test]
fn claims_are_checked_one_by_one() {
    let iss = "https://auth.example.com";
    assert!(claims(100, Some(40)).check(iss, "frp-app", 50));
    assert!(claims(100, None).check(iss, "frp-app", 50));
    assert!(!claims(50, None).check(iss, "frp-app", 50));
    assert!(!claims(100, Some(51)).check(iss, "frp-app", 50));
    assert!(!claims(100, None).check("other", "frp-app", 50));
    assert!(!claims(100, None).check(iss, "other", 50));
    let mut listed = claims(100, None);
    listed.aud = None;
    assert!(!listed.check(iss, "frp-app", 50));
    listed.aud_list = Some(vec![None, Some("frp-app".to_string())]);
    assert!(listed.check(iss, "frp-app", 50));
    let mut unsigned = claims(100, None);
    unsigned.alg = Some("none".to_string());
    assert!(!unsigned.check(iss, "frp-app", 50));
}

#[test]
fn oidc_tokens_need_three_parts_and_a_signature() {
    let verifier = OidcAuthVerifier::new(&oidc_config());
    assert!(verifier.verify_login("u", "not-a-token", 0).is_err());
    assert!(verifier.verify_login("u", "a.b.c", 0).is_err());
    assert!(verifier.verify_work_conn("u", "", 0).is_err());
}

/// A token with the claims `iss`, `aud`, `exp` = 2000000000 and `iat` = 1000,
/// signed with the secret of the configuration.
fn signed_token() -> String {
    let key = ring::hmac::Key::new(ring::hmac::HMAC_SHA256, b"my-secret");
    let header = base64::encode_config("{\"alg\":\"HS256\",\"typ\":\"JWT\"}", base64::URL_SAFE_NO_PAD);
    let payload = base64::encode_config(
        "{\"iss\":\"https://auth.example.com\",\"aud\":\"frp-app\",\"exp\":2000000000,\"iat\":1000}",
        base64::URL_SAFE_NO_PAD,
    );
    let signed = format!("{}.{}", header, payload);
    let tag = ring::hmac::sign(&key, signed.as_bytes());
    format!("{}.{}", signed, base64::encode_config(tag.as_ref(), base64::URL_SAFE_NO_PAD))
}

#[test]
fn oidc_accepts_a_good_token_until_it_expires() {
    let manager = AuthManager::new(&AuthConfig {
        method: "oidc".to_string(),
        token: None,
        oidc: Some(oidc_config()),
    })
    .unwrap();
    let token = signed_token();
    assert!(manager.verify_login("u", &token, 5000).is_ok());
    assert!(manager.verify_login("u", &token, 999).is_err());
    assert!(manager.verify_login("u", &token, 2000000000).is_err());
    let mut broken = token.clone();
    broken.push('A');
    assert!(manager.verify_login("u", &broken, 5000).is_err());
}
