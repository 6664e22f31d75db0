//! Certificates and keys, and who is trusted.
use crate::codec::{pem_certs_of, pem_pkcs8_keys_of, pem_rsa_keys_of};
use crate::streams::NetError;
use crate::tls::{
    choose_key, key_from, read_certs, read_key, PemKey, ServerIdentity, ServerTrust, TlsConfig,
};
use vstd::prelude::*;
use vstd::string::*;

verus! {

/// A list of texts of bytes holds these bytes.
pub open spec fn bytes_of(list: Seq<Vec<u8>>, bytes: Seq<Seq<u8>>) -> bool {
    list.len() == bytes.len() && forall|i: int|
        0 <= i < list.len() ==> (#[trigger] list[i])@ == bytes[i]
}

/// The first PKCS#8 key is used, whatever other keys there are, and without one the first
/// PKCS#1 key; where there are none the error is the one that is asked for. Keys that
/// cannot be read are an error, but PKCS#1 keys only where they matter.
pub proof fn law_first_key_is_used(
    pkcs8: Result<Vec<Vec<u8>>, String>,
    rsa: Result<Vec<Vec<u8>>, String>,
    missing: &str,
    r: Result<PemKey, NetError>,
)
    requires
        call_ensures(key_from, (pkcs8, rsa, missing), r),
    ensures
        pkcs8 matches Ok(keys) ==> keys@.len() > 0 ==> (r matches Ok(PemKey::Pkcs8(k)) && k@
            == keys@[0]@),
        pkcs8 matches Ok(none) ==> none@.len() == 0 ==> match rsa {
            Ok(keys) => if keys@.len() > 0 {
                r matches Ok(PemKey::Pkcs1(k)) && k@ == keys@[0]@
            } else {
                r matches Err(NetError::Other(t)) && t@ == missing@
            },
            Err(e) => r matches Err(NetError::PemDecode(t)) && t@ == e@,
        },
        pkcs8 matches Err(e) ==> (r matches Err(NetError::PemDecode(t)) && t@ == e@),
{
    if let Ok(keys) = pkcs8 {
        assert(crate::codec::items_of(keys@).len() == keys@.len());
        if keys@.len() > 0 {
            assert(crate::codec::items_of(keys@)[0] == keys@[0]@);
        }
    }
    if let Ok(keys) = rsa {
        assert(crate::codec::items_of(keys@).len() == keys@.len());
        if keys@.len() > 0 {
            assert(crate::codec::items_of(keys@)[0] == keys@[0]@);
        }
    }
}

/// Of keys of both forms one is used exactly where there is one.
pub proof fn law_a_key_is_chosen(
    pkcs8: Vec<Vec<u8>>,
    rsa: Vec<Vec<u8>>,
    key: Option<PemKey>,
)
    requires
        call_ensures(choose_key, (pkcs8, rsa), key),
    ensures
        key is Some == (pkcs8@.len() > 0 || rsa@.len() > 0),
        pkcs8@.len() > 0 ==> (key matches Some(PemKey::Pkcs8(k)) && k@ == pkcs8@[0]@),
        pkcs8@.len() == 0 && rsa@.len() > 0 ==> (key matches Some(PemKey::Pkcs1(k)) && k@
            == rsa@[0]@),
{
}

/// A server shows all the certificates of its file in order, and the key that is read from
/// its other file; each file is read for what it is for. It is a server and no client.
pub proof fn law_server_shows_its_files(
    cert_pem: &[u8],
    key_pem: &[u8],
    certs: Result<Vec<Vec<u8>>, NetError>,
    key: Result<PemKey, NetError>,
    r: Result<TlsConfig, NetError>,
    id: Result<&ServerIdentity, &'static str>,
    trust: Result<&ServerTrust, &'static str>,
)
    requires
        call_ensures(read_certs, (cert_pem,), certs),
        call_ensures(read_key, (key_pem, "No private key found in file"), key),
        call_ensures(TlsConfig::new_server, (cert_pem, key_pem), r),
        r is Ok ==> call_ensures(TlsConfig::accepting, (&r->Ok_0,), id),
        r is Ok ==> call_ensures(TlsConfig::connecting, (&r->Ok_0,), trust),
    ensures
        r is Ok == (certs is Ok && key is Ok),
        r is Ok ==> id is Ok && trust is Err,
        r is Ok ==> id->Ok_0.chain@.len() == certs->Ok_0@.len(),
        r is Ok ==> forall|i: int|
            0 <= i < certs->Ok_0@.len() ==> (#[trigger] certs->Ok_0@[i])@ == id->Ok_0.chain@[i]@,
        r is Ok ==> match (key->Ok_0, id->Ok_0.key) {
            (PemKey::Pkcs8(a), PemKey::Pkcs8(b)) => a@ == b@,
            (PemKey::Pkcs1(a), PemKey::Pkcs1(b)) => a@ == b@,
            _ => false,
        },
        certs is Err ==> r is Err && r->Err_0 is PemDecode,
{
    if r is Ok {
        let a = crate::codec::items_of(certs->Ok_0@);
        let b = crate::codec::items_of(id->Ok_0.chain@);
        assert(a == b);
        assert(a.len() == certs->Ok_0@.len() && b.len() == id->Ok_0.chain@.len());
        assert forall|i: int| 0 <= i < certs->Ok_0@.len() implies (#[trigger] certs->Ok_0@[i])@
            == id->Ok_0.chain@[i]@ by {
            assert(a[i] == certs->Ok_0@[i]@);
            assert(b[i] == id->Ok_0.chain@[i]@);
        }
    }
}

/// What the certificates of a file and its keys are is what is read from its bytes.
pub proof fn law_files_are_read(
    pem: &[u8],
    missing: &str,
    certs: Result<Vec<Vec<u8>>, NetError>,
    key: Result<PemKey, NetError>,
)
    requires
        call_ensures(read_certs, (pem,), certs),
        call_ensures(read_key, (pem, missing), key),
    ensures
        pem_certs_of(pem@) matches Ok(list) ==> certs is Ok && bytes_of(certs->Ok_0@, list),
        pem_certs_of(pem@) matches Err(e) ==> (certs matches Err(NetError::PemDecode(t)) && t@ == e),
        pem_pkcs8_keys_of(pem@) matches Ok(list) ==> list.len() > 0 ==> (key matches Ok(
            PemKey::Pkcs8(k),
        ) && k@ == list[0]),
        pem_pkcs8_keys_of(pem@) matches Ok(none) ==> none.len() == 0 ==> (pem_rsa_keys_of(
            pem@,
        ) matches Ok(list) ==> if list.len() > 0 {
            key matches Ok(PemKey::Pkcs1(k)) && k@ == list[0]
        } else {
            key matches Err(NetError::Other(t)) && t@ == missing@
        }),
{
    if certs is Ok {
        let a = crate::codec::items_of(certs->Ok_0@);
        assert(a.len() == certs->Ok_0@.len());
        assert forall|i: int| 0 <= i < certs->Ok_0@.len() implies (#[trigger] certs->Ok_0@[i])@
            == a[i] by {}
    }
}

/// A server with the built-in certificate differs from one with files only in what it
/// says where there is no key.
pub proof fn law_builtin_certificate_is_used_alike(
    cert_pem: &[u8],
    key_pem: &[u8],
    files: Result<TlsConfig, NetError>,
    builtin: Result<TlsConfig, NetError>,
)
    requires
        call_ensures(TlsConfig::new_server, (cert_pem, key_pem), files),
        call_ensures(TlsConfig::new_server_with_builtin_cert, (cert_pem, key_pem), builtin),
    ensures
        files is Ok == builtin is Ok,
        files matches Err(NetError::Other(t)) ==> t@ == "No private key found in file"@,
        builtin matches Err(NetError::Other(t)) ==> t@ == "No private key found in builtin cert"@,
        files is Ok ==> builtin->Ok_0.server is Some && builtin->Ok_0.client is None
            && builtin->Ok_0.server->0.chain@.len() == files->Ok_0.server->0.chain@.len(),
{
    if files is Ok {
        let a = crate::codec::items_of(files->Ok_0.server->0.chain@);
        let b = crate::codec::items_of(builtin->Ok_0.server->0.chain@);
        assert(a == b);
        assert(a.len() == files->Ok_0.server->0.chain@.len());
        assert(b.len() == builtin->Ok_0.server->0.chain@.len());
    }
}

/// A client trusts all the certificates of its file, and of the built-in certificate the
/// first; a client that does not ask trusts anyone, and any other the public authorities.
/// It is a client and no server.
pub proof fn law_clients_trust(
    pem: &[u8],
    certs: Result<Vec<Vec<u8>>, NetError>,
    all: Result<TlsConfig, NetError>,
    first: Result<TlsConfig, NetError>,
    anyone: Result<TlsConfig, NetError>,
    public: Result<TlsConfig, NetError>,
    shown: Result<&ServerIdentity, &'static str>,
)
    requires
        call_ensures(read_certs, (pem,), certs),
        call_ensures(TlsConfig::new_client_with_ca_file, (pem,), all),
        call_ensures(TlsConfig::new_client_trusting_builtin, (pem,), first),
        call_ensures(TlsConfig::new_client_insecure, (), anyone),
        call_ensures(TlsConfig::new_client, (), public),
        all is Ok ==> call_ensures(TlsConfig::accepting, (&all->Ok_0,), shown),
    ensures
        all is Ok == certs is Ok,
        all is Ok ==> shown is Err && (all->Ok_0.client matches Some(ServerTrust::Roots(roots))
            && roots@.len() == certs->Ok_0@.len() && forall|i: int|
            0 <= i < roots@.len() ==> (#[trigger] roots@[i])@ == certs->Ok_0@[i]@),
        first is Ok == (certs is Ok && certs->Ok_0@.len() > 0),
        first is Ok ==> (first->Ok_0.client matches Some(ServerTrust::Roots(roots)) && roots@.len()
            == 1 && roots@[0]@ == certs->Ok_0@[0]@),
        certs is Ok && certs->Ok_0@.len() == 0 ==> (first matches Err(NetError::Other(t)) && t@
            == "No certificate found in builtin cert"@),
        anyone is Ok && anyone->Ok_0.client == Some(ServerTrust::Anyone),
        public is Ok && public->Ok_0.client == Some(ServerTrust::PublicRoots),
{
    if certs is Ok {
        let c = crate::codec::items_of(certs->Ok_0@);
        assert(c.len() == certs->Ok_0@.len());
        assert forall|i: int| 0 <= i < c.len() implies c[i] == #[trigger] certs->Ok_0@[i]@ by {}
        if let Some(ServerTrust::Roots(roots)) = all->Ok_0.client {
            let a = crate::codec::items_of(roots@);
            assert(a == c);
            assert(a.len() == roots@.len());
            assert forall|i: int| 0 <= i < roots@.len() implies (#[trigger] roots@[i])@
                == certs->Ok_0@[i]@ by {
                assert(a[i] == roots@[i]@);
                assert(c[i] == certs->Ok_0@[i]@);
            }
        }
        if first is Ok {
            if let Some(ServerTrust::Roots(roots)) = first->Ok_0.client {
                let a = crate::codec::items_of(roots@);
                assert(a.len() == roots@.len());
                assert(a.len() == 1);
                assert(a[0] == roots@[0]@);
                assert(c[0] == certs->Ok_0@[0]@);
            }
        }
    }
}

/// A server is made of what was read as of the files that it was read from, and so is a
/// client that trusts the built-in certificate.
pub proof fn law_read_parts_make_the_whole(
    certs: Result<Vec<Vec<u8>>, String>,
    pkcs8: Result<Vec<Vec<u8>>, String>,
    rsa: Result<Vec<Vec<u8>>, String>,
    missing: &str,
    key: Result<PemKey, NetError>,
    server: Result<TlsConfig, NetError>,
    client: Result<TlsConfig, NetError>,
)
    requires
        call_ensures(key_from, (pkcs8, rsa, missing), key),
        call_ensures(TlsConfig::server_from, (certs, pkcs8, rsa, missing), server),
        call_ensures(TlsConfig::client_from, (certs,), client),
    ensures
        server is Ok == (certs is Ok && key is Ok),
        server is Ok ==> server->Ok_0.server is Some && server->Ok_0.client is None,
        certs matches Err(e) ==> (server matches Err(NetError::PemDecode(t)) && t@ == e@)
            && (client matches Err(NetError::PemDecode(t)) && t@ == e@),
        client is Ok == (certs is Ok && certs->Ok_0@.len() > 0),
        client is Ok ==> (client->Ok_0.client matches Some(ServerTrust::Roots(roots))
            && roots@.len() == 1 && roots@[0]@ == certs->Ok_0@[0]@),
{
    if let Ok(list) = certs {
        let c = crate::codec::items_of(list@);
        assert(c.len() == list@.len());
        if client is Ok {
            assert(c[0] == list@[0]@);
            if let Some(ServerTrust::Roots(roots)) = client->Ok_0.client {
                let a = crate::codec::items_of(roots@);
                assert(a.len() == roots@.len());
                assert(a.len() == 1);
                assert(a[0] == roots@[0]@);
            }
        }
    }
}

} // verus!
