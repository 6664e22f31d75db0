//! Who may log in, and the keys that are derived from the shared token.
use crate::codec::{
    base64_encode, base64_of, base64url_decode, base64url_decoded, hashable, hmac_sha256,
    hmac_sha256_of, hmac_sha256_verify, json_int, json_int_of, json_list, json_list_of, json_text,
    json_text_of, optional_texts, sha256, sha256_of, slices_are_equal, MAX_HASHED,
};
use crate::config::{AuthConfig, OidcConfig};
use crate::text::{find, push_signed, same, signed_decimal, spec_split, split, texts};
use vstd::prelude::*;
use vstd::string::*;
use vstd::utf8::{encode_utf8, encode_utf8_decode_utf8};

verus! {

/// What can go wrong with authentication.
#[derive(Debug)]
pub enum AuthError {
    InvalidToken,
    TokenRequired,
    UnsupportedMethod(String),
    OidcConfigRequired,
    EncryptionKeyNotSet,
    HmacSignError,
    Internal(String),
}

impl AuthError {
    /// The text that describes an error.
    pub open spec fn spec_message(self) -> Seq<char> {
        match self {
            AuthError::InvalidToken => "invalid token"@,
            AuthError::TokenRequired => "token is required for token auth"@,
            AuthError::UnsupportedMethod(m) => "unsupported auth method: "@ + m@,
            AuthError::OidcConfigRequired => "OIDC config is required for OIDC auth"@,
            AuthError::EncryptionKeyNotSet => "encryption key not set"@,
            AuthError::HmacSignError => "HMAC signing failed"@,
            AuthError::Internal(e) => "internal error: "@ + e@,
        }
    }

    /// The text that describes the error.
    pub fn message(&self) -> (text: String)
        ensures
            text@ == self.spec_message(),
    {
        match self {
            AuthError::InvalidToken => "invalid token".to_string(),
            AuthError::TokenRequired => "token is required for token auth".to_string(),
            AuthError::UnsupportedMethod(m) => "unsupported auth method: ".to_string().concat(
                m.as_str(),
            ),
            AuthError::OidcConfigRequired => "OIDC config is required for OIDC auth".to_string(),
            AuthError::EncryptionKeyNotSet => "encryption key not set".to_string(),
            AuthError::HmacSignError => "HMAC signing failed".to_string(),
            AuthError::Internal(e) => "internal error: ".to_string().concat(e.as_str()),
        }
    }
}

/// Why a way to log in cannot be set up.
#[derive(Debug)]
pub enum AuthSetupError {
    TokenRequired,
    OidcConfigRequired,
    UnsupportedMethod(String),
}

impl AuthSetupError {
    /// The text that describes an error.
    pub open spec fn spec_message(self) -> Seq<char> {
        match self {
            AuthSetupError::TokenRequired => "token is required for token auth"@,
            AuthSetupError::OidcConfigRequired => "oidc config is required for oidc auth"@,
            AuthSetupError::UnsupportedMethod(m) => "unsupported auth method: "@ + m@,
        }
    }

    /// The text that describes the error.
    pub fn message(&self) -> (text: String)
        ensures
            text@ == self.spec_message(),
    {
        match self {
            AuthSetupError::TokenRequired => "token is required for token auth".to_string(),
            AuthSetupError::OidcConfigRequired =>
                "oidc config is required for oidc auth".to_string(),
            AuthSetupError::UnsupportedMethod(m) =>
                "unsupported auth method: ".to_string().concat(m.as_str()),
        }
    }
}

/// Whether two byte strings are the same, in a time that depends on their length
/// only.
pub fn constant_time_compare(a: &[u8], b: &[u8]) -> (equal: bool)
    ensures
        equal == (a@ == b@),
{
    if a.len() != b.len() {
        return false;
    }
    slices_are_equal(a, b)
}

/// Two texts with the same encoding are the same text.
pub proof fn lemma_encoding_is_injective(a: Seq<char>, b: Seq<char>)
    ensures
        encode_utf8(a) == encode_utf8(b) <==> a == b,
{
    encode_utf8_decode_utf8(a);
    encode_utf8_decode_utf8(b);
}

/// Decides who may log in.
pub trait AuthVerifier {
    /// Whether `token` is accepted at the time `now`, in seconds since 1970.
    spec fn accepts(&self, token: Seq<char>, now: i64) -> bool;

    /// Whether the verifier's own secrets are short enough to be hashed.
    spec fn usable(&self) -> bool;

    fn verify_login(&self, user: &str, token: &str, now: i64) -> (r: Result<(), AuthError>)
        requires
            self.usable(),
            hashable(token@),
        ensures
            r is Ok == self.accepts(token@, now),
            r matches Err(e) ==> e is InvalidToken,
    ;

    fn verify_work_conn(&self, user: &str, token: &str, now: i64) -> (r: Result<(), AuthError>)
        requires
            self.usable(),
            hashable(token@),
        ensures
            r is Ok == self.accepts(token@, now),
            r matches Err(e) ==> e is InvalidToken,
    ;
}

/// Accepts one shared token.
pub struct TokenAuthVerifier {
    token: String,
}

impl TokenAuthVerifier {
    /// The shared token.
    pub closed spec fn token(self) -> Seq<char> {
        self.token@
    }

    pub fn new(token: &str) -> (v: Self)
        ensures
            v.token() == token@,
    {
        TokenAuthVerifier { token: token.to_string() }
    }

    /// The signature of a time: the tag under the token of the token followed by
    /// the time in decimal.
    pub open spec fn spec_sign(token: Seq<char>, timestamp: i64) -> Seq<char> {
        base64_of(
            hmac_sha256_of(
                encode_utf8(token),
                encode_utf8(token + signed_decimal(timestamp as int)),
            ),
        )
    }

    /// Signs a time.
    pub fn generate_sign(&self, timestamp: i64) -> (sign: String)
        requires
            hashable(self.token()),
            hashable(self.token() + signed_decimal(timestamp as int)),
        ensures
            sign@ == Self::spec_sign(self.token(), timestamp),
            sign@.len() > 0,
    {
        let mut msg: String = self.token.clone();
        push_signed(&mut msg, timestamp);
        let tag: Vec<u8> = hmac_sha256(self.token.as_str().as_bytes(), msg.as_str().as_bytes());
        base64_encode(tag.as_slice())
    }
}

impl AuthVerifier for TokenAuthVerifier {
    open spec fn accepts(&self, token: Seq<char>, now: i64) -> bool {
        token == self.token()
    }

    open spec fn usable(&self) -> bool {
        true
    }

    fn verify_login(&self, user: &str, token: &str, now: i64) -> (r: Result<(), AuthError>) {
        proof {
            lemma_encoding_is_injective(token@, self.token@);
        }
        if constant_time_compare(token.as_bytes(), self.token.as_str().as_bytes()) {
            Ok(())
        } else {
            Err(AuthError::InvalidToken)
        }
    }

    fn verify_work_conn(&self, user: &str, token: &str, now: i64) -> (r: Result<(), AuthError>) {
        self.verify_login(user, token, now)
    }
}

/// Accepts tokens that an OpenID Connect provider signed with a shared secret.
pub struct OidcAuthVerifier {
    issuer: String,
    audience: String,
    client_id: String,
    client_secret: String,
    token_endpoint_url: String,
}

/// What a signed token says of itself.
pub struct TokenClaims {
    /// The algorithm that its header names.
    pub alg: Option<String>,
    pub iss: Option<String>,
    /// The audience, where it is one text.
    pub aud: Option<String>,
    /// The audiences, where they are a list.
    pub aud_list: Option<Vec<Option<String>>>,
    pub exp: Option<i64>,
    pub iat: Option<i64>,
}

/// The view of an optional text.
pub open spec fn optional_text(t: Option<String>) -> Option<Seq<char>> {
    match t {
        Some(t) => Some(t@),
        None => None,
    }
}

/// The view of an optional list of texts.
pub open spec fn optional_list(l: Option<Vec<Option<String>>>) -> Option<Seq<Option<Seq<char>>>> {
    match l {
        Some(l) => Some(optional_texts(l@)),
        None => None,
    }
}

/// Whether the audience of a token, which is one text or a list of them, holds `audience`.
pub open spec fn audience_matches(
    aud: Option<Seq<char>>,
    aud_list: Option<Seq<Option<Seq<char>>>>,
    audience: Seq<char>,
) -> bool {
    ||| aud == Some(audience)
    ||| (aud_list matches Some(list) && list.contains(Some(audience)))
}

/// Whether a token that is signed with HS256 names this issuer and audience, has
/// not expired at `now` and was not issued after it.
pub open spec fn claims_hold(
    alg: Option<Seq<char>>,
    iss: Option<Seq<char>>,
    aud: Option<Seq<char>>,
    aud_list: Option<Seq<Option<Seq<char>>>>,
    exp: Option<i64>,
    iat: Option<i64>,
    issuer: Seq<char>,
    audience: Seq<char>,
    now: i64,
) -> bool {
    &&& alg == Some("HS256"@)
    &&& iss == Some(issuer)
    &&& audience_matches(aud, aud_list, audience)
    &&& exp matches Some(t)
    &&& now < t
    &&& iat matches Some(t) ==> t <= now
}

impl TokenClaims {
    /// Whether these claims are accepted.
    pub open spec fn hold(self, issuer: Seq<char>, audience: Seq<char>, now: i64) -> bool {
        claims_hold(
            optional_text(self.alg),
            optional_text(self.iss),
            optional_text(self.aud),
            optional_list(self.aud_list),
            self.exp,
            self.iat,
            issuer,
            audience,
            now,
        )
    }

    /// Whether the audience of these claims holds `audience`.
    pub fn names_audience(&self, audience: &str) -> (ok: bool)
        ensures
            ok == audience_matches(
                optional_text(self.aud),
                optional_list(self.aud_list),
                audience@,
            ),
    {
        if let Some(aud) = &self.aud {
            if same(aud.as_str(), audience) {
                return true;
            }
        }
        if let Some(list) = &self.aud_list {
            let ghost items = optional_texts(list@);
            let mut i: usize = 0;
            while i < list.len()
                invariant
                    i <= list.len(),
                    items == optional_texts(list@),
                    optional_list(self.aud_list) == Some(items),
                    forall|k: int| 0 <= k < i ==> items[k] != Some(audience@),
                decreases list.len() - i,
            {
                if let Some(item) = &list[i] {
                    if same(item.as_str(), audience) {
                        assert(items[i as int] == Some(audience@));
                        return true;
                    }
                }
                i = i + 1;
            }
        }
        false
    }

    /// Whether these claims are accepted.
    pub fn check(&self, issuer: &str, audience: &str, now: i64) -> (ok: bool)
        ensures
            ok == self.hold(issuer@, audience@, now),
    {
        let alg_ok: bool = match &self.alg {
            Some(alg) => same(alg.as_str(), "HS256"),
            None => false,
        };
        let iss_ok: bool = match &self.iss {
            Some(iss) => same(iss.as_str(), issuer),
            None => false,
        };
        let exp_ok: bool = match self.exp {
            Some(exp) => now < exp,
            None => false,
        };
        let iat_ok: bool = match self.iat {
            Some(iat) => iat <= now,
            None => true,
        };
        alg_ok && iss_ok && self.names_audience(audience) && exp_ok && iat_ok
    }
}

/// A signed token: three parts in URL-safe base64, with a dot between two parts.
/// The first is a header and the second the claims, both JSON objects; the third
/// is the tag of the first two, with their dot, under the secret.
pub open spec fn jwt_accepted(
    token: Seq<char>,
    secret: Seq<char>,
    issuer: Seq<char>,
    audience: Seq<char>,
    now: i64,
) -> bool {
    let parts = spec_split(token, '.');
    &&& parts.len() == 3
    &&& base64url_decoded(parts[0]) matches Some(header)
    &&& base64url_decoded(parts[1]) matches Some(claims)
    &&& base64url_decoded(parts[2]) == Some(
        hmac_sha256_of(encode_utf8(secret), encode_utf8(parts[0] + seq!['.'] + parts[1])),
    )
    &&& claims_hold(
        json_text_of(header, "alg"@),
        json_text_of(claims, "iss"@),
        json_text_of(claims, "aud"@),
        json_list_of(claims, "aud"@),
        json_int_of(claims, "exp"@),
        json_int_of(claims, "iat"@),
        issuer,
        audience,
        now,
    )
}

impl OidcAuthVerifier {
    pub closed spec fn issuer(self) -> Seq<char> {
        self.issuer@
    }

    pub closed spec fn audience(self) -> Seq<char> {
        self.audience@
    }

    pub closed spec fn client_id(self) -> Seq<char> {
        self.client_id@
    }

    pub closed spec fn client_secret(self) -> Seq<char> {
        self.client_secret@
    }

    pub closed spec fn token_endpoint_url(self) -> Seq<char> {
        self.token_endpoint_url@
    }

    pub fn new(oidc_config: &OidcConfig) -> (v: Self)
        ensures
            v.issuer() == oidc_config.issuer@,
            v.audience() == oidc_config.audience@,
            v.client_id() == oidc_config.client_id@,
            v.client_secret() == oidc_config.client_secret@,
            v.token_endpoint_url() == oidc_config.token_endpoint_url@,
    {
        OidcAuthVerifier {
            issuer: oidc_config.issuer.clone(),
            audience: oidc_config.audience.clone(),
            client_id: oidc_config.client_id.clone(),
            client_secret: oidc_config.client_secret.clone(),
            token_endpoint_url: oidc_config.token_endpoint_url.clone(),
        }
    }

    /// Whether a signed token is accepted at the time `now`.
    pub fn verify_token(&self, token: &str, now: i64) -> (r: Result<(), AuthError>)
        requires
            hashable(self.client_secret()),
            hashable(token@),
        ensures
            r is Ok == jwt_accepted(
                token@,
                self.client_secret(),
                self.issuer(),
                self.audience(),
                now,
            ),
            r matches Err(e) ==> e is InvalidToken,
    {
        let parts: Vec<String> = split(token, '.');
        let ghost pieces = spec_split(token@, '.');
        if parts.len() != 3 {
            assert(texts(parts@).len() == parts.len());
            return Err(AuthError::InvalidToken);
        }
        proof {
            assert(texts(parts@).len() == 3);
            assert(texts(parts@)[0] == parts[0]@);
            assert(texts(parts@)[1] == parts[1]@);
            assert(texts(parts@)[2] == parts[2]@);
        }
        let mut signed: String = parts[0].clone();
        signed.push('.');
        signed.append(parts[1].as_str());
        proof {
            assert(signed@ == pieces[0] + seq!['.'] + pieces[1]);
            lemma_signed_part_is_shorter(token@);
        }
        match (
            base64url_decode(parts[0].as_str()),
            base64url_decode(parts[1].as_str()),
            base64url_decode(parts[2].as_str()),
        ) {
            (Some(header), Some(body), Some(tag)) => {
                if !hmac_sha256_verify(
                    self.client_secret.as_str().as_bytes(),
                    signed.as_str().as_bytes(),
                    tag.as_slice(),
                ) {
                    return Err(AuthError::InvalidToken);
                }
                let claims = TokenClaims {
                    alg: json_text(header.as_slice(), "alg"),
                    iss: json_text(body.as_slice(), "iss"),
                    aud: json_text(body.as_slice(), "aud"),
                    aud_list: json_list(body.as_slice(), "aud"),
                    exp: json_int(body.as_slice(), "exp"),
                    iat: json_int(body.as_slice(), "iat"),
                };
                if !claims.check(self.issuer.as_str(), self.audience.as_str(), now) {
                    return Err(AuthError::InvalidToken);
                }
            },
            _ => {
                return Err(AuthError::InvalidToken);
            },
        }
        Ok(())
    }
}

proof fn lemma_encode_concat(a: Seq<char>, b: Seq<char>)
    ensures
        encode_utf8(a + b) == encode_utf8(a) + encode_utf8(b),
    decreases a.len(),
{
    if a.len() == 0 {
        assert(a + b == b);
        assert(encode_utf8(a) + encode_utf8(b) == encode_utf8(b));
    } else {
        assert((a + b).drop_first() == a.drop_first() + b);
        lemma_encode_concat(a.drop_first(), b);
    }
}

proof fn lemma_signed_part_is_shorter(token: Seq<char>)
    requires
        spec_split(token, '.').len() == 3,
    ensures
        encode_utf8(spec_split(token, '.')[0] + seq!['.'] + spec_split(token, '.')[1]).len()
            <= encode_utf8(token).len(),
{
    reveal_with_fuel(spec_split, 3);
    let i = find(token, '.') as int;
    let rest = token.skip(i + 1);
    let j = find(rest, '.') as int;
    crate::text::lemma_find_bound(token, '.');
    crate::text::lemma_find_bound(rest, '.');
    assert(i < token.len());
    assert(j < rest.len());
    let signed = token.take(i) + seq!['.'] + rest.take(j);
    let tail = rest.skip(j);
    assert(token == signed + tail);
    lemma_encode_concat(signed, tail);
    assert(spec_split(token, '.')[0] == token.take(i));
    assert(spec_split(token, '.')[1] == rest.take(j));
}

impl AuthVerifier for OidcAuthVerifier {
    open spec fn accepts(&self, token: Seq<char>, now: i64) -> bool {
        jwt_accepted(token, self.client_secret(), self.issuer(), self.audience(), now)
    }

    open spec fn usable(&self) -> bool {
        hashable(self.client_secret())
    }

    fn verify_login(&self, user: &str, token: &str, now: i64) -> (r: Result<(), AuthError>) {
        self.verify_token(token, now)
    }

    fn verify_work_conn(&self, user: &str, token: &str, now: i64) -> (r: Result<(), AuthError>) {
        self.verify_token(token, now)
    }
}

/// The verifier that a configuration asks for.
pub enum Verifier {
    Token(TokenAuthVerifier),
    Oidc(OidcAuthVerifier),
}

impl AuthVerifier for Verifier {
    open spec fn accepts(&self, token: Seq<char>, now: i64) -> bool {
        match self {
            Verifier::Token(v) => v.accepts(token, now),
            Verifier::Oidc(v) => v.accepts(token, now),
        }
    }

    open spec fn usable(&self) -> bool {
        match self {
            Verifier::Token(v) => v.usable(),
            Verifier::Oidc(v) => v.usable(),
        }
    }

    fn verify_login(&self, user: &str, token: &str, now: i64) -> (r: Result<(), AuthError>) {
        match self {
            Verifier::Token(v) => v.verify_login(user, token, now),
            Verifier::Oidc(v) => v.verify_login(user, token, now),
        }
    }

    fn verify_work_conn(&self, user: &str, token: &str, now: i64) -> (r: Result<(), AuthError>) {
        match self {
            Verifier::Token(v) => v.verify_work_conn(user, token, now),
            Verifier::Oidc(v) => v.verify_work_conn(user, token, now),
        }
    }
}

/// Checks logins, and derives keys from the shared token.
pub struct AuthManager {
    login_check: Verifier,
    encryption_key: Option<Vec<u8>>,
}

/// The key that a token stands for: its SHA-256 digest.
pub open spec fn token_key(token: Seq<char>) -> Seq<u8> {
    sha256_of(encode_utf8(token))
}

/// Data as it is sent: there is no cipher yet, so it is the data itself.
pub open spec fn sealed(data: Seq<u8>) -> Seq<u8> {
    data
}

/// Data as it was before it was sent.
pub open spec fn opened(data: Seq<u8>) -> Seq<u8> {
    data
}

/// What is signed for a work connection.
pub open spec fn work_conn_text(run_id: Seq<char>) -> Seq<char> {
    "work_conn:"@ + run_id
}

/// The signature of the work connections of a run, under a key.
pub open spec fn work_conn_sign(key: Seq<u8>, run_id: Seq<char>) -> Seq<char> {
    base64_of(hmac_sha256_of(key, encode_utf8(work_conn_text(run_id))))
}

/// What a visitor of a secret proxy signs.
pub open spec fn visitor_text(run_id: Seq<char>, timestamp: i64) -> Seq<char> {
    "stcp_visitor:"@ + run_id + ":"@ + signed_decimal(timestamp as int)
}

/// Whether a visitor's secret, and what is signed with it, are short enough to be
/// hashed.
pub open spec fn can_sign(secret: Seq<char>, run_id: Seq<char>, timestamp: i64) -> bool {
    hashable(secret) && hashable(visitor_text(run_id, timestamp))
}

/// The signature of a visitor, under the key that a secret stands for.
pub open spec fn visitor_sign(secret: Seq<char>, run_id: Seq<char>, timestamp: i64) -> Seq<char> {
    base64_of(hmac_sha256_of(token_key(secret), encode_utf8(visitor_text(run_id, timestamp))))
}

/// The signature that a visitor with this secret carries; none without a secret.
pub open spec fn visitor_signature(
    secret: Option<Seq<char>>,
    run_id: Seq<char>,
    timestamp: i64,
) -> Seq<char> {
    match secret {
        Some(s) => if can_sign(s, run_id, timestamp) {
            visitor_sign(s, run_id, timestamp)
        } else {
            seq![]
        },
        None => seq![],
    }
}

/// Whether a visitor may enter a proxy: a proxy with a secret is open to those who
/// sign with it, and one without to all.
pub open spec fn visitor_accepted(
    secret: Option<Seq<char>>,
    run_id: Seq<char>,
    timestamp: i64,
    sign: Seq<char>,
) -> bool {
    secret matches Some(s) ==> can_sign(s, run_id, timestamp) && sign == visitor_sign(
        s,
        run_id,
        timestamp,
    )
}

/// A text that may be missing, as characters.
pub open spec fn chars_given(t: Option<&str>) -> Option<Seq<char>> {
    match t {
        Some(t) => Some(t@),
        None => None,
    }
}

/// Whether the secrets of a configuration are short enough to be hashed.
pub open spec fn config_hashable(config: AuthConfig) -> bool {
    &&& config.token matches Some(t) ==> hashable(t@)
    &&& config.oidc matches Some(o) ==> hashable(o.client_secret@)
}

/// The signature of the work connections of a run, under a key.
pub fn sign_work_conn(key: &[u8], run_id: &str) -> (sign: String)
    requires
        key@.len() == 32,
        hashable(work_conn_text(run_id@)),
    ensures
        sign@ == work_conn_sign(key@, run_id@),
        sign@.len() > 0,
{
    let msg: String = "work_conn:".to_string().concat(run_id);
    let tag: Vec<u8> = hmac_sha256(key, msg.as_str().as_bytes());
    base64_encode(tag.as_slice())
}

/// The signature that a client makes for its work connections from the token.
pub fn generate_work_conn_sign_key(token: &str, run_id: &str) -> (sign: String)
    requires
        hashable(token@),
        hashable(work_conn_text(run_id@)),
    ensures
        sign@ == work_conn_sign(token_key(token@), run_id@),
        sign@.len() > 0,
{
    let key: Vec<u8> = AuthManager::generate_encryption_key(token);
    sign_work_conn(key.as_slice(), run_id)
}

fn is_hashable(text: &str) -> (b: bool)
    ensures
        b == hashable(text@),
{
    text.as_bytes().len() as u64 <= MAX_HASHED - 64
}

/// The signature of a visitor with this secret, where it can be made.
fn sign_visitor(secret: &str, run_id: &str, timestamp: i64) -> (sign: Option<String>)
    ensures
        sign is Some == can_sign(secret@, run_id@, timestamp),
        sign matches Some(s) ==> s@ == visitor_sign(secret@, run_id@, timestamp),
{
    let mut text: String = "stcp_visitor:".to_string();
    text.append(run_id);
    text.append(":");
    push_signed(&mut text, timestamp);
    if !is_hashable(secret) || !is_hashable(text.as_str()) {
        return None;
    }
    let key: Vec<u8> = AuthManager::generate_encryption_key(secret);
    let tag: Vec<u8> = hmac_sha256(key.as_slice(), text.as_str().as_bytes());
    Some(base64_encode(tag.as_slice()))
}

/// The signature that a visitor with this secret carries; none without a secret.
pub fn generate_visitor_sign(secret: Option<&str>, run_id: &str, timestamp: i64) -> (sign: String)
    ensures
        sign@ == visitor_signature(chars_given(secret), run_id@, timestamp),
{
    match secret {
        Some(s) => match sign_visitor(s, run_id, timestamp) {
            Some(sign) => sign,
            None => String::new(),
        },
        None => String::new(),
    }
}

/// Whether a visitor may enter a proxy with this secret.
pub fn admits_visitor(secret: Option<&str>, run_id: &str, timestamp: i64, sign: &str) -> (b: bool)
    ensures
        b == visitor_accepted(chars_given(secret), run_id@, timestamp, sign@),
{
    match secret {
        Some(s) => match sign_visitor(s, run_id, timestamp) {
            Some(expected) => {
                proof {
                    lemma_encoding_is_injective(expected@, sign@);
                }
                constant_time_compare(expected.as_str().as_bytes(), sign.as_bytes())
            },
            None => false,
        },
        None => true,
    }
}

impl AuthManager {
    /// How logins are checked.
    pub closed spec fn login_check(self) -> Verifier {
        self.login_check
    }

    /// The key derived from the token, where there is a token.
    pub closed spec fn key(self) -> Option<Seq<u8>> {
        match self.encryption_key {
            Some(k) => Some(k@),
            None => None,
        }
    }

    /// A key has 32 bytes, and secrets can be hashed.
    pub closed spec fn wf(self) -> bool {
        &&& self.login_check.usable()
        &&& self.encryption_key matches Some(k) ==> k@.len() == 32
    }

    /// The manager that a configuration asks for. The method `token` needs a token
    /// and `oidc` needs the settings of a provider; there are no other methods.
    pub fn new(auth_config: &AuthConfig) -> (r: Result<Self, AuthSetupError>)
        requires
            config_hashable(*auth_config),
        ensures
            match r {
                Ok(m) => {
                    &&& m.wf()
                    &&& m.key() == (match auth_config.token {
                        Some(t) => Some(token_key(t@)),
                        None => None,
                    })
                    &&& match m.login_check() {
                        Verifier::Token(v) => auth_config.method@ == "token"@
                            && auth_config.token is Some && v.token() == auth_config.token->0@,
                        Verifier::Oidc(v) => auth_config.method@ == "oidc"@
                            && auth_config.oidc is Some && v.issuer() == auth_config.oidc->0.issuer@
                            && v.audience() == auth_config.oidc->0.audience@ && v.client_id()
                            == auth_config.oidc->0.client_id@ && v.client_secret()
                            == auth_config.oidc->0.client_secret@ && v.token_endpoint_url()
                            == auth_config.oidc->0.token_endpoint_url@,
                    }
                },
                Err(AuthSetupError::TokenRequired) => auth_config.method@ == "token"@
                    && auth_config.token is None,
                Err(AuthSetupError::OidcConfigRequired) => auth_config.method@ == "oidc"@
                    && auth_config.oidc is None,
                Err(AuthSetupError::UnsupportedMethod(m)) => m@ == auth_config.method@ && m@
                    != "token"@ && m@ != "oidc"@,
            },
    {
        proof {
            reveal_strlit("token");
            reveal_strlit("oidc");
        }
        let login_check: Verifier = if same(auth_config.method.as_str(), "token") {
            match &auth_config.token {
                Some(token) => Verifier::Token(TokenAuthVerifier::new(token.as_str())),
                None => {
                    return Err(AuthSetupError::TokenRequired);
                },
            }
        } else if same(auth_config.method.as_str(), "oidc") {
            match &auth_config.oidc {
                Some(oidc) => Verifier::Oidc(OidcAuthVerifier::new(oidc)),
                None => {
                    return Err(AuthSetupError::OidcConfigRequired);
                },
            }
        } else {
            return Err(AuthSetupError::UnsupportedMethod(auth_config.method.clone()));
        };
        let encryption_key: Option<Vec<u8>> = match &auth_config.token {
            Some(token) => Some(Self::generate_encryption_key(token.as_str())),
            None => None,
        };
        Ok(AuthManager { login_check, encryption_key })
    }

    /// The key that a token stands for.
    pub fn generate_encryption_key(token: &str) -> (key: Vec<u8>)
        requires
            hashable(token@),
        ensures
            key@ == token_key(token@),
            key@.len() == 32,
    {
        sha256(token.as_bytes())
    }

    /// The key derived from the token, where there is a token.
    pub fn encryption_key(&self) -> (key: Option<&[u8]>)
        ensures
            match key {
                Some(k) => self.key() == Some(k@),
                None => self.key() is None,
            },
    {
        match &self.encryption_key {
            Some(k) => Some(k.as_slice()),
            None => None,
        }
    }

    /// Data as it is sent; refused without a key.
    pub fn encrypt(&self, data: &[u8]) -> (r: Result<Vec<u8>, AuthError>)
        ensures
            match r {
                Ok(out) => self.key() is Some && out@ == sealed(data@),
                Err(e) => self.key() is None && e is EncryptionKeyNotSet,
            },
    {
        if self.encryption_key.is_some() {
            Ok(vstd::slice::slice_to_vec(data))
        } else {
            Err(AuthError::EncryptionKeyNotSet)
        }
    }

    /// Data as it was before it was sent; refused without a key.
    pub fn decrypt(&self, data: &[u8]) -> (r: Result<Vec<u8>, AuthError>)
        ensures
            match r {
                Ok(out) => self.key() is Some && out@ == opened(data@),
                Err(e) => self.key() is None && e is EncryptionKeyNotSet,
            },
    {
        if self.encryption_key.is_some() {
            Ok(vstd::slice::slice_to_vec(data))
        } else {
            Err(AuthError::EncryptionKeyNotSet)
        }
    }

    /// Whether a client may log in.
    pub fn verify_login(&self, user: &str, token: &str, now: i64) -> (r: Result<(), AuthError>)
        requires
            self.wf(),
            hashable(token@),
        ensures
            r is Ok == self.login_check().accepts(token@, now),
            r matches Err(e) ==> e is InvalidToken,
    {
        self.login_check.verify_login(user, token, now)
    }

    /// Whether a client may open work connections.
    pub fn verify_work_conn(&self, user: &str, token: &str, now: i64) -> (r: Result<(), AuthError>)
        requires
            self.wf(),
            hashable(token@),
        ensures
            r is Ok == self.login_check().accepts(token@, now),
            r matches Err(e) ==> e is InvalidToken,
    {
        self.login_check.verify_work_conn(user, token, now)
    }

    /// The signature that the work connections of a run must carry.
    pub fn generate_work_conn_sign_key(&self, run_id: &str) -> (r: Result<String, AuthError>)
        requires
            self.wf(),
            hashable(work_conn_text(run_id@)),
        ensures
            match r {
                Ok(sign) => self.key() matches Some(k) && sign@ == work_conn_sign(k, run_id@)
                    && sign@.len() > 0,
                Err(e) => self.key() is None && e is EncryptionKeyNotSet,
            },
    {
        match &self.encryption_key {
            Some(key) => Ok(sign_work_conn(key.as_slice(), run_id)),
            None => Err(AuthError::EncryptionKeyNotSet),
        }
    }
}

/// What was encrypted is given back by decrypting it.
pub proof fn law_decrypt_undoes_encrypt(data: Seq<u8>)
    ensures
        opened(sealed(data)) == data,
{
}

/// A client and a server with the same token sign the work connections of a run
/// alike.
pub proof fn law_both_ends_sign_alike(server: AuthManager, token: Seq<char>, run_id: Seq<char>)
    requires
        server.key() == Some(token_key(token)),
    ensures
        work_conn_sign(server.key()->0, run_id) == work_conn_sign(token_key(token), run_id),
{
}

/// A visitor with the secret of a proxy may enter it.
pub proof fn law_shared_secret_opens_the_proxy(
    secret: Option<Seq<char>>,
    run_id: Seq<char>,
    timestamp: i64,
)
    requires
        secret matches Some(s) ==> can_sign(s, run_id, timestamp),
    ensures
        visitor_accepted(
            secret,
            run_id,
            timestamp,
            visitor_signature(secret, run_id, timestamp),
        ),
{
}

/// A token that has expired is not accepted, whatever else it says.
pub proof fn law_expired_token_is_refused(
    token: Seq<char>,
    secret: Seq<char>,
    issuer: Seq<char>,
    audience: Seq<char>,
    now: i64,
)
    requires
        base64url_decoded(spec_split(token, '.')[1]) matches Some(claims) ==> (json_int_of(
            claims,
            "exp"@,
        ) matches Some(exp) ==> exp <= now),
    ensures
        !jwt_accepted(token, secret, issuer, audience, now),
{
}

} // verus!
