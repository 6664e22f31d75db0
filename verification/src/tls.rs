//! What the ends of a TLS connection present and trust, read from PEM.
use crate::codec::{
    items_of, pem_certs, pem_certs_of, pem_pkcs8_keys, pem_pkcs8_keys_of, pem_rsa_keys,
    pem_rsa_keys_of, sections_of,
};
use crate::streams::NetError;
use vstd::prelude::*;
use vstd::string::*;

verus! {

/// A private key in DER, by the form that it was written in.
#[derive(Debug, Clone)]
pub enum PemKey {
    Pkcs8(Vec<u8>),
    Pkcs1(Vec<u8>),
}

/// What a server shows of itself: its certificate first, then those that vouch for it.
#[derive(Debug, Clone)]
pub struct ServerIdentity {
    pub chain: Vec<Vec<u8>>,
    pub key: PemKey,
}

/// Which servers a client believes.
#[derive(Debug, Clone)]
pub enum ServerTrust {
    /// Those that the public authorities vouch for.
    PublicRoots,
    /// Those that one of these certificates vouches for.
    Roots(Vec<Vec<u8>>),
    /// All of them: the connection is encrypted, and the server may be anyone.
    Anyone,
}

/// One end of TLS connections.
#[derive(Debug, Clone)]
pub struct TlsConfig {
    pub server: Option<ServerIdentity>,
    pub client: Option<ServerTrust>,
}

/// `r` is the error that stands for PEM that cannot be read.
pub open spec fn is_pem_error<T>(r: Result<T, NetError>, text: Seq<char>) -> bool {
    r matches Err(NetError::PemDecode(t)) && t@ == text
}

/// `r` is the error that says `text`.
pub open spec fn is_other_error<T>(r: Result<T, NetError>, text: Seq<char>) -> bool {
    r matches Err(NetError::Other(t)) && t@ == text
}

/// `r` is what the keys of a file give: the first PKCS#8 key, or where there is none the
/// first PKCS#1 key. PKCS#1 keys do not matter where a PKCS#8 key was found.
pub open spec fn key_chosen(
    pkcs8: Result<Seq<Seq<u8>>, Seq<char>>,
    rsa: Result<Seq<Seq<u8>>, Seq<char>>,
    missing: Seq<char>,
    r: Result<PemKey, NetError>,
) -> bool {
    match pkcs8 {
        Err(e) => is_pem_error(r, e),
        Ok(keys) => if keys.len() > 0 {
            r matches Ok(PemKey::Pkcs8(k)) && k@ == keys[0]
        } else {
            match rsa {
                Err(e) => is_pem_error(r, e),
                Ok(keys) => if keys.len() > 0 {
                    r matches Ok(PemKey::Pkcs1(k)) && k@ == keys[0]
                } else {
                    is_other_error(r, missing)
                },
            }
        },
    }
}

/// `r` is what the PEM text `pem` gives as a private key.
pub open spec fn key_read(
    pem: Seq<u8>,
    missing: Seq<char>,
    r: Result<PemKey, NetError>,
) -> bool {
    key_chosen(pem_pkcs8_keys_of(pem), pem_rsa_keys_of(pem), missing, r)
}

/// `r` is what reading `certs` gives.
pub open spec fn certs_read(
    certs: Result<Seq<Seq<u8>>, Seq<char>>,
    r: Result<Vec<Vec<u8>>, NetError>,
) -> bool {
    match certs {
        Err(e) => is_pem_error(r, e),
        Ok(list) => r matches Ok(l) && items_of(l@) == list,
    }
}

/// `r` is the server that a certificate chain and the keys of a file give. Of a chain
/// that cannot be read that error comes, whatever the keys are.
pub open spec fn server_made(
    certs: Result<Seq<Seq<u8>>, Seq<char>>,
    pkcs8: Result<Seq<Seq<u8>>, Seq<char>>,
    rsa: Result<Seq<Seq<u8>>, Seq<char>>,
    missing: Seq<char>,
    r: Result<TlsConfig, NetError>,
) -> bool {
    match certs {
        Err(e) => is_pem_error(r, e),
        Ok(chain) => match r {
            Ok(config) => {
                &&& config.client is None
                &&& config.server matches Some(id)
                &&& items_of(id.chain@) == chain
                &&& key_chosen(pkcs8, rsa, missing, Ok(id.key))
            },
            Err(e) => key_chosen(pkcs8, rsa, missing, Err(e)),
        },
    }
}

/// Whether a configuration is a client's, which trusts exactly the certificates `roots`.
pub open spec fn trusts(config: TlsConfig, roots: Seq<Seq<u8>>) -> bool {
    &&& config.server is None
    &&& config.client matches Some(ServerTrust::Roots(list))
    &&& items_of(list@) == roots
}

/// The first item of a list.
fn first_of(list: Vec<Vec<u8>>) -> (first: Option<Vec<u8>>)
    ensures
        first is Some == (list@.len() > 0),
        first matches Some(f) ==> f == list@[0],
{
    let mut list = list;
    if list.len() == 0 {
        return None;
    }
    Some(list.remove(0))
}

/// The key that is used: the first PKCS#8 key, or where there is none the first PKCS#1
/// key.
pub fn choose_key(pkcs8: Vec<Vec<u8>>, rsa: Vec<Vec<u8>>) -> (key: Option<PemKey>)
    ensures
        match key {
            Some(PemKey::Pkcs8(k)) => pkcs8@.len() > 0 && k == pkcs8@[0],
            Some(PemKey::Pkcs1(k)) => pkcs8@.len() == 0 && rsa@.len() > 0 && k == rsa@[0],
            None => pkcs8@.len() == 0 && rsa@.len() == 0,
        },
{
    match first_of(pkcs8) {
        Some(k) => Some(PemKey::Pkcs8(k)),
        None => match first_of(rsa) {
            Some(k) => Some(PemKey::Pkcs1(k)),
            None => None,
        },
    }
}

/// The key among what was read from a file; `missing` is the error where there is none.
pub fn key_from(
    pkcs8: Result<Vec<Vec<u8>>, String>,
    rsa: Result<Vec<Vec<u8>>, String>,
    missing: &str,
) -> (r: Result<PemKey, NetError>)
    ensures
        key_chosen(sections_of(pkcs8), sections_of(rsa), missing@, r),
{
    let pkcs8: Vec<Vec<u8>> = match pkcs8 {
        Ok(keys) => keys,
        Err(e) => return Err(NetError::PemDecode(e)),
    };
    let rsa: Vec<Vec<u8>> = if pkcs8.len() > 0 {
        Vec::new()
    } else {
        match rsa {
            Ok(keys) => keys,
            Err(e) => return Err(NetError::PemDecode(e)),
        }
    };
    match choose_key(pkcs8, rsa) {
        Some(key) => Ok(key),
        None => Err(NetError::Other(missing.to_string())),
    }
}

/// The private key in a PEM text; `missing` is the error where there is none.
pub fn read_key(pem: &[u8], missing: &str) -> (r: Result<PemKey, NetError>)
    ensures
        key_read(pem@, missing@, r),
{
    key_from(pem_pkcs8_keys(pem), pem_rsa_keys(pem), missing)
}

/// The certificates in a PEM text, in order.
pub fn read_certs(pem: &[u8]) -> (r: Result<Vec<Vec<u8>>, NetError>)
    ensures
        certs_read(pem_certs_of(pem@), r),
{
    match pem_certs(pem) {
        Ok(certs) => Ok(certs),
        Err(e) => Err(NetError::PemDecode(e)),
    }
}

impl TlsConfig {
    /// The server that these certificates and keys make.
    pub fn server_from(
        certs: Result<Vec<Vec<u8>>, String>,
        pkcs8: Result<Vec<Vec<u8>>, String>,
        rsa: Result<Vec<Vec<u8>>, String>,
        missing: &str,
    ) -> (r: Result<TlsConfig, NetError>)
        ensures
            server_made(sections_of(certs), sections_of(pkcs8), sections_of(rsa), missing@, r),
    {
        let chain: Vec<Vec<u8>> = match certs {
            Ok(chain) => chain,
            Err(e) => return Err(NetError::PemDecode(e)),
        };
        match key_from(pkcs8, rsa, missing) {
            Ok(key) => Ok(
                TlsConfig { server: Some(ServerIdentity { chain, key }), client: None },
            ),
            Err(e) => Err(e),
        }
    }

    /// A server with the certificate chain and the key of two files, given by what they
    /// hold.
    pub fn new_server(cert_pem: &[u8], key_pem: &[u8]) -> (r: Result<TlsConfig, NetError>)
        ensures
            server_made(
                pem_certs_of(cert_pem@),
                pem_pkcs8_keys_of(key_pem@),
                pem_rsa_keys_of(key_pem@),
                "No private key found in file"@,
                r,
            ),
    {
        Self::server_from(
            pem_certs(cert_pem),
            pem_pkcs8_keys(key_pem),
            pem_rsa_keys(key_pem),
            "No private key found in file",
        )
    }

    /// A server with the certificate and the key that come with the program.
    pub fn new_server_with_builtin_cert(cert_pem: &[u8], key_pem: &[u8]) -> (r: Result<
        TlsConfig,
        NetError,
    >)
        ensures
            server_made(
                pem_certs_of(cert_pem@),
                pem_pkcs8_keys_of(key_pem@),
                pem_rsa_keys_of(key_pem@),
                "No private key found in builtin cert"@,
                r,
            ),
    {
        Self::server_from(
            pem_certs(cert_pem),
            pem_pkcs8_keys(key_pem),
            pem_rsa_keys(key_pem),
            "No private key found in builtin cert",
        )
    }

    /// A client that trusts these servers.
    fn client(trust: ServerTrust) -> (c: TlsConfig)
        ensures
            c == (TlsConfig { server: None, client: Some(trust) }),
    {
        TlsConfig { server: None, client: Some(trust) }
    }

    /// A client that trusts the public authorities.
    pub fn new_client() -> (r: Result<TlsConfig, NetError>)
        ensures
            r matches Ok(c) && c == (TlsConfig {
                server: None,
                client: Some(ServerTrust::PublicRoots),
            }),
    {
        Ok(Self::client(ServerTrust::PublicRoots))
    }

    /// A client that does not ask who the server is.
    pub fn new_client_insecure() -> (r: Result<TlsConfig, NetError>)
        ensures
            r matches Ok(c) && c == (TlsConfig {
                server: None,
                client: Some(ServerTrust::Anyone),
            }),
    {
        Ok(Self::client(ServerTrust::Anyone))
    }

    /// A client that trusts all certificates of a file, given by what it holds.
    pub fn new_client_with_ca_file(ca_pem: &[u8]) -> (r: Result<TlsConfig, NetError>)
        ensures
            match pem_certs_of(ca_pem@) {
                Err(e) => is_pem_error(r, e),
                Ok(certs) => r matches Ok(c) && trusts(c, certs),
            },
    {
        match read_certs(ca_pem) {
            Ok(certs) => Ok(Self::client(ServerTrust::Roots(certs))),
            Err(e) => Err(e),
        }
    }

    /// The client that trusts the first of these certificates.
    pub fn client_from(certs: Result<Vec<Vec<u8>>, String>) -> (r: Result<TlsConfig, NetError>)
        ensures
            match sections_of(certs) {
                Err(e) => is_pem_error(r, e),
                Ok(certs) => if certs.len() > 0 {
                    r matches Ok(c) && trusts(c, seq![certs[0]])
                } else {
                    is_other_error(r, "No certificate found in builtin cert"@)
                },
            },
    {
        let certs: Vec<Vec<u8>> = match certs {
            Ok(certs) => certs,
            Err(e) => return Err(NetError::PemDecode(e)),
        };
        match first_of(certs) {
            Some(cert) => {
                let ghost bytes = cert@;
                let roots: Vec<Vec<u8>> = vec![cert];
                assert(items_of(roots@) =~= seq![bytes]);
                Ok(Self::client(ServerTrust::Roots(roots)))
            },
            None => Err(NetError::Other("No certificate found in builtin cert".to_string())),
        }
    }

    /// A client that trusts the certificate that comes with the program.
    pub fn new_client_trusting_builtin(cert_pem: &[u8]) -> (r: Result<TlsConfig, NetError>)
        ensures
            match pem_certs_of(cert_pem@) {
                Err(e) => is_pem_error(r, e),
                Ok(certs) => if certs.len() > 0 {
                    r matches Ok(c) && trusts(c, seq![certs[0]])
                } else {
                    is_other_error(r, "No certificate found in builtin cert"@)
                },
            },
    {
        Self::client_from(pem_certs(cert_pem))
    }

    /// What the end shows where it accepts a connection; only a server does.
    pub fn accepting(&self) -> (r: Result<&ServerIdentity, &'static str>)
        ensures
            match self.server {
                Some(id) => r == Ok::<&ServerIdentity, &'static str>(&id),
                None => r matches Err(e) && e@ == "not a server config"@,
            },
    {
        match &self.server {
            Some(id) => Ok(id),
            None => Err("not a server config"),
        }
    }

    /// Whom the end believes where it opens a connection; only a client does.
    pub fn connecting(&self) -> (r: Result<&ServerTrust, &'static str>)
        ensures
            match self.client {
                Some(trust) => r == Ok::<&ServerTrust, &'static str>(&trust),
                None => r matches Err(e) && e@ == "not a client config"@,
            },
    {
        match &self.client {
            Some(trust) => Ok(trust),
            None => Err("not a client config"),
        }
    }
}

} // verus!
