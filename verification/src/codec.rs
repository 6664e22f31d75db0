//! Digests and encodings that other crates compute. Each wrapper makes one call;
//! what is said of its result is not proved here.
use vstd::prelude::*;
use vstd::string::*;
use vstd::utf8::{decode_utf8, encode_utf8, is_ascii_chars, valid_utf8};

verus! {

/// The longest input that is hashed, far below the limit of the hash functions.
pub const MAX_HASHED: u64 = 0x1000_0000_0000_0000;

/// The length of the base64 encoding of so many bytes, with its padding.
pub open spec fn base64_len(n: nat) -> nat {
    (n + 2) / 3 * 4
}

/// What `ring` computes as the HMAC-SHA256 of `data` under `key`.
pub uninterp spec fn hmac_sha256_of(key: Seq<u8>, data: Seq<u8>) -> Seq<u8>;

/// What `ring` computes as the SHA-256 digest of `data`.
pub uninterp spec fn sha256_of(data: Seq<u8>) -> Seq<u8>;

/// What `ring` computes as the SHA-1 digest of `data`.
pub uninterp spec fn sha1_of(data: Seq<u8>) -> Seq<u8>;

/// What `base64::encode` makes of `bytes`.
pub uninterp spec fn base64_of(bytes: Seq<u8>) -> Seq<char>;

/// What `base64::decode` makes of `text`; nothing where it reports an error.
pub uninterp spec fn base64_decoded(text: Seq<char>) -> Option<Seq<u8>>;

/// What `base64::decode_config` makes of `text` in the URL-safe alphabet without
/// padding; nothing where it reports an error.
pub uninterp spec fn base64url_decoded(text: Seq<char>) -> Option<Seq<u8>>;

/// What `urlencoding::decode` makes of `text`; nothing where it reports an error.
pub uninterp spec fn percent_decoded(text: Seq<char>) -> Option<Seq<char>>;

/// The text member `name` of the JSON object that `serde_json` reads from `json`.
pub uninterp spec fn json_text_of(json: Seq<u8>, name: Seq<char>) -> Option<Seq<char>>;

/// The integer member `name` of the JSON object that `serde_json` reads from `json`.
pub uninterp spec fn json_int_of(json: Seq<u8>, name: Seq<char>) -> Option<i64>;

/// The list member `name` of the JSON object that `serde_json` reads from `json`:
/// its items, as far as they are texts.
pub uninterp spec fn json_list_of(json: Seq<u8>, name: Seq<char>) -> Option<
    Seq<Option<Seq<char>>>,
>;

/// The texts in a list, item by item.
pub open spec fn optional_texts(list: Seq<Option<String>>) -> Seq<Option<Seq<char>>> {
    list.map_values(
        |item: Option<String>|
            match item {
                Some(t) => Some(t@),
                None => None,
            },
    )
}

/// What `String::from_utf8_lossy` makes of `bytes`.
pub uninterp spec fn lossy_text_of(bytes: Seq<u8>) -> Seq<char>;

/// What `format!` makes of `text` with `{:?}`.
pub uninterp spec fn quoted_of(text: Seq<char>) -> Seq<char>;

/// What `str::to_lowercase` makes of `text`.
pub uninterp spec fn lowercase_of(text: Seq<char>) -> Seq<char>;

/// What `str::to_uppercase` makes of `text`.
pub uninterp spec fn uppercase_of(text: Seq<char>) -> Seq<char>;

/// What `rustls_pemfile::certs` reads from `pem`: the certificates, or the text of the
/// first error.
pub uninterp spec fn pem_certs_of(pem: Seq<u8>) -> Result<Seq<Seq<u8>>, Seq<char>>;

/// What `rustls_pemfile::pkcs8_private_keys` reads from `pem`: the keys, or the text of
/// the first error.
pub uninterp spec fn pem_pkcs8_keys_of(pem: Seq<u8>) -> Result<Seq<Seq<u8>>, Seq<char>>;

/// What `rustls_pemfile::rsa_private_keys` reads from `pem`: the keys, or the text of
/// the first error.
pub uninterp spec fn pem_rsa_keys_of(pem: Seq<u8>) -> Result<Seq<Seq<u8>>, Seq<char>>;

/// The bytes in a list, item by item.
pub open spec fn items_of(list: Seq<Vec<u8>>) -> Seq<Seq<u8>> {
    list.map_values(|item: Vec<u8>| item@)
}

/// What was read from PEM, or the text of the error.
pub open spec fn sections_of(read: Result<Vec<Vec<u8>>, String>) -> Result<
    Seq<Seq<u8>>,
    Seq<char>,
> {
    match read {
        Ok(list) => Ok(items_of(list@)),
        Err(e) => Err(e@),
    }
}

/// The ASCII lower case of one character.
pub open spec fn ascii_lower(c: char) -> char {
    if 'A' <= c <= 'Z' {
        (c as u32 + 32) as char
    } else {
        c
    }
}

/// The ASCII upper case of one character.
pub open spec fn ascii_upper(c: char) -> char {
    if 'a' <= c <= 'z' {
        (c as u32 - 32) as char
    } else {
        c
    }
}

/// The text up to its first `=`.
pub open spec fn before_padding(text: Seq<char>) -> Seq<char> {
    text.take(crate::text::find(text, '=') as int)
}

/// The characters of base64: letters, digits, `+`, `/` and the padding `=`.
pub open spec fn is_base64_char(c: char) -> bool {
    ||| 'A' <= c <= 'Z'
    ||| 'a' <= c <= 'z'
    ||| '0' <= c <= '9'
    ||| c == '+'
    ||| c == '/'
    ||| c == '='
}

/// Whether a text is short enough to be hashed.
pub open spec fn hashable(text: Seq<char>) -> bool {
    encode_utf8(text).len() <= MAX_HASHED - 64
}

/// `ring::hmac::sign` under HMAC-SHA256: the tag, which has 32 bytes. Inputs
/// that would exceed the limit of the hash function are left out.
#[verifier::external_body]
pub(crate) fn hmac_sha256(key: &[u8], data: &[u8]) -> (tag: Vec<u8>)
    requires
        key@.len() <= MAX_HASHED,
        data@.len() <= MAX_HASHED,
    ensures
        tag@ == hmac_sha256_of(key@, data@),
        tag@.len() == 32,
{
    let key = ring::hmac::Key::new(ring::hmac::HMAC_SHA256, key);
    ring::hmac::sign(&key, data).as_ref().to_vec()
}

/// `ring::hmac::verify` under HMAC-SHA256: whether `tag` is the tag of `data`.
#[verifier::external_body]
pub(crate) fn hmac_sha256_verify(key: &[u8], data: &[u8], tag: &[u8]) -> (ok: bool)
    requires
        key@.len() <= MAX_HASHED,
        data@.len() <= MAX_HASHED,
    ensures
        ok == (hmac_sha256_of(key@, data@) == tag@),
{
    let key = ring::hmac::Key::new(ring::hmac::HMAC_SHA256, key);
    ring::hmac::verify(&key, data, tag).is_ok()
}

/// `ring::digest::digest` under SHA-256: the digest, which has 32 bytes.
#[verifier::external_body]
pub(crate) fn sha256(data: &[u8]) -> (digest: Vec<u8>)
    requires
        data@.len() <= MAX_HASHED,
    ensures
        digest@ == sha256_of(data@),
        digest@.len() == 32,
{
    ring::digest::digest(&ring::digest::SHA256, data).as_ref().to_vec()
}

/// `ring::digest::digest` under SHA-1: the digest, which has 20 bytes.
#[verifier::external_body]
pub(crate) fn sha1(data: &[u8]) -> (digest: Vec<u8>)
    requires
        data@.len() <= MAX_HASHED,
    ensures
        digest@ == sha1_of(data@),
        digest@.len() == 20,
{
    ring::digest::digest(&ring::digest::SHA1_FOR_LEGACY_USE_ONLY, data).as_ref().to_vec()
}

/// `ring::constant_time::verify_slices_are_equal`: whether two slices are equal.
#[allow(deprecated)]
#[verifier::external_body]
pub(crate) fn slices_are_equal(a: &[u8], b: &[u8]) -> (equal: bool)
    ensures
        equal == (a@ == b@),
{
    ring::constant_time::verify_slices_are_equal(a, b).is_ok()
}

/// `base64::encode`: the standard encoding, in its own characters only.
/// `base64::decode` gives the bytes back, with the padding or without it. Inputs
/// whose encoding is longer than an allocation can be are left out.
#[verifier::external_body]
pub(crate) fn base64_encode(bytes: &[u8]) -> (text: String)
    requires
        base64_len(bytes@.len()) <= isize::MAX,
    ensures
        text@ == base64_of(bytes@),
        base64_decoded(text@) == Some(bytes@),
        base64_decoded(before_padding(text@)) == Some(bytes@),
        bytes@.len() > 0 ==> text@.len() > 0,
        forall|i: int| 0 <= i < text@.len() ==> is_base64_char(#[trigger] text@[i]),
{
    base64::encode(bytes)
}

/// `base64::decode`: the bytes, or nothing where it reports an error.
#[verifier::external_body]
pub(crate) fn base64_decode(text: &str) -> (bytes: Option<Vec<u8>>)
    ensures
        match base64_decoded(text@) {
            Some(b) => bytes is Some && bytes->0@ == b,
            None => bytes is None,
        },
{
    base64::decode(text).ok()
}

/// `base64::decode_config` with `URL_SAFE_NO_PAD`: the bytes, or nothing where it
/// reports an error.
#[verifier::external_body]
pub(crate) fn base64url_decode(text: &str) -> (bytes: Option<Vec<u8>>)
    ensures
        match base64url_decoded(text@) {
            Some(b) => bytes is Some && bytes->0@ == b,
            None => bytes is None,
        },
{
    base64::decode_config(text, base64::URL_SAFE_NO_PAD).ok()
}

/// `urlencoding::decode`: the text, or nothing where what it decodes is not
/// UTF-8. A text without `%` is left as it is.
#[verifier::external_body]
pub(crate) fn percent_decode(text: &str) -> (decoded: Option<String>)
    ensures
        match percent_decoded(text@) {
            Some(t) => decoded is Some && decoded->0@ == t,
            None => decoded is None,
        },
        !text@.contains('%') ==> decoded is Some && decoded->0@ == text@,
{
    urlencoding::decode(text).ok().map(|t| t.into_owned())
}

/// `serde_json::from_slice` into a `Value`, then `Value::get` and `Value::as_str`.
#[verifier::external_body]
pub(crate) fn json_text(json: &[u8], name: &str) -> (member: Option<String>)
    ensures
        match json_text_of(json@, name@) {
            Some(t) => member is Some && member->0@ == t,
            None => member is None,
        },
{
    let value: serde_json::Value = serde_json::from_slice(json).ok()?;
    value.get(name)?.as_str().map(|t| t.to_string())
}

/// `serde_json::from_slice` into a `Value`, then `Value::get` and `Value::as_i64`.
#[verifier::external_body]
pub(crate) fn json_int(json: &[u8], name: &str) -> (member: Option<i64>)
    ensures
        member == json_int_of(json@, name@),
{
    let value: serde_json::Value = serde_json::from_slice(json).ok()?;
    value.get(name)?.as_i64()
}

/// `serde_json::from_slice` into a `Value`, then `Value::get` and
/// `Value::as_array`, with each item by `Value::as_str`.
#[verifier::external_body]
pub(crate) fn json_list(json: &[u8], name: &str) -> (member: Option<Vec<Option<String>>>)
    ensures
        match json_list_of(json@, name@) {
            Some(l) => member is Some && optional_texts(member->0@) == l,
            None => member is None,
        },
{
    let value: serde_json::Value = serde_json::from_slice(json).ok()?;
    let list = value.get(name)?.as_array()?;
    Some(list.iter().map(|item| item.as_str().map(|t| t.to_string())).collect())
}

/// `String::from_utf8`: the text, or nothing where the bytes are not UTF-8.
#[verifier::external_body]
pub(crate) fn utf8_text(bytes: Vec<u8>) -> (text: Option<String>)
    ensures
        text is Some == valid_utf8(bytes@),
        text is Some ==> text->0@ == decode_utf8(bytes@),
{
    String::from_utf8(bytes).ok()
}

/// `String::from_utf8_lossy`: the text, with replacement characters for what is
/// not UTF-8.
#[verifier::external_body]
pub(crate) fn lossy_text(bytes: &[u8]) -> (text: String)
    ensures
        text@ == lossy_text_of(bytes@),
        valid_utf8(bytes@) ==> text@ == decode_utf8(bytes@),
{
    String::from_utf8_lossy(bytes).into_owned()
}

/// `format!` with `{:?}`, the `Debug` form of a text: it stands in quotes, and
/// characters that are not printed as they are get escaped.
#[verifier::external_body]
pub(crate) fn quoted(text: &str) -> (q: String)
    ensures
        q@ == quoted_of(text@),
        q@.len() >= 2,
        q@[0] == '"',
        q@.last() == '"',
{
    format!("{:?}", text)
}

/// `str::to_lowercase`: of a text in ASCII, the letters `A` to `Z` are mapped to
/// `a` to `z`.
#[verifier::external_body]
pub(crate) fn to_lowercase(text: &str) -> (lower: String)
    ensures
        lower@ == lowercase_of(text@),
        is_ascii_chars(text@) ==> lower@ == text@.map_values(|c: char| ascii_lower(c)),
{
    text.to_lowercase()
}

/// `str::to_uppercase`: of a text in ASCII, the letters `a` to `z` are mapped to
/// `A` to `Z`.
#[verifier::external_body]
pub(crate) fn to_uppercase(text: &str) -> (upper: String)
    ensures
        upper@ == uppercase_of(text@),
        is_ascii_chars(text@) ==> upper@ == text@.map_values(|c: char| ascii_upper(c)),
{
    text.to_uppercase()
}

/// `rustls_pemfile::certs`, to its end or its first error: the DER bytes of each
/// certificate in the order in which they stand, or what the error displays.
#[verifier::external_body]
pub(crate) fn pem_certs(pem: &[u8]) -> (certs: Result<Vec<Vec<u8>>, String>)
    ensures
        sections_of(certs) == pem_certs_of(pem@),
{
    rustls_pemfile::certs(&mut &pem[..])
        .map(|c| c.map(|c| c.to_vec()).map_err(|e| e.to_string()))
        .collect()
}

/// `rustls_pemfile::pkcs8_private_keys`, to its end or its first error: the DER bytes of
/// each PKCS#8 key in the order in which they stand, or what the error displays.
#[verifier::external_body]
pub(crate) fn pem_pkcs8_keys(pem: &[u8]) -> (keys: Result<Vec<Vec<u8>>, String>)
    ensures
        sections_of(keys) == pem_pkcs8_keys_of(pem@),
{
    rustls_pemfile::pkcs8_private_keys(&mut &pem[..])
        .map(|k| k.map(|k| k.secret_pkcs8_der().to_vec()).map_err(|e| e.to_string()))
        .collect()
}

/// `rustls_pemfile::rsa_private_keys`, to its end or its first error: the DER bytes of
/// each PKCS#1 key in the order in which they stand, or what the error displays.
#[verifier::external_body]
pub(crate) fn pem_rsa_keys(pem: &[u8]) -> (keys: Result<Vec<Vec<u8>>, String>)
    ensures
        sections_of(keys) == pem_rsa_keys_of(pem@),
{
    rustls_pemfile::rsa_private_keys(&mut &pem[..])
        .map(|k| k.map(|k| k.secret_pkcs1_der().to_vec()).map_err(|e| e.to_string()))
        .collect()
}

} // verus!
