//! Where servers and clients listen and connect.
use crate::client::{build_client_tls_config, work_conn_port_of, ClientError, ClientTls};
use crate::config::{ClientConfig, ServerConfig, TransportConfig};
use crate::link::{
    choose_transport, mux_tls, visitor_listeners, work_conn_tls, work_route, Client,
    ControlTransport, VisitorListener, WorkRoute,
};
use crate::server::{join_host_port, server_tls_source, ListenPlan, Server, ServerError, TlsSource};
use crate::text::decimal;
use vstd::prelude::*;
use vstd::string::*;

verus! {

/// A server listens for HTTP on the port that the setting for HTTP gives, whatever the
/// setting for HTTPS is, and without one on port 9090.
pub proof fn law_http_port(
    config: ServerConfig,
    path: Option<String>,
    server: Server,
    plan: ListenPlan,
)
    requires
        call_ensures(Server::new, (config, path), Ok(server)),
        call_ensures(Server::start, (&server,), Ok(plan)),
    ensures
        config.vhost_http_port matches Some(p) ==> plan.http@ == config.bind_addr@ + ":"@ + decimal(
            p as nat,
        ),
        config.vhost_http_port is None ==> plan.http@ == config.bind_addr@ + ":"@ + decimal(9090),
{
}

/// A server with a certificate listens for HTTPS on the port that the setting for HTTPS
/// gives, whatever the setting for HTTP is, and without one on port 9091; a server
/// without a certificate does not listen for HTTPS.
pub proof fn law_https_port(
    config: ServerConfig,
    path: Option<String>,
    server: Server,
    plan: ListenPlan,
)
    requires
        call_ensures(Server::new, (config, path), Ok(server)),
        call_ensures(Server::start, (&server,), Ok(plan)),
    ensures
        ({
            let encrypts = config.transport.tls is Some && config.transport.tls->0.enable;
            &&& plan.https is Some == encrypts
            &&& encrypts && config.vhost_https_port is Some ==> plan.https->0@ == config.bind_addr@
                + ":"@ + decimal(config.vhost_https_port->0 as nat)
            &&& encrypts && config.vhost_https_port is None ==> plan.https->0@ == config.bind_addr@
                + ":"@ + decimal(9091)
        }),
{
}

/// A server listens for clients on its port, for work connections on the port that is
/// given for them or a thousand above its own, and for KCP exactly where a port is given
/// for it.
pub proof fn law_control_and_work_ports(
    config: ServerConfig,
    path: Option<String>,
    server: Server,
    plan: ListenPlan,
)
    requires
        call_ensures(Server::new, (config, path), Ok(server)),
        call_ensures(Server::start, (&server,), Ok(plan)),
        config.work_conn_port is None ==> config.bind_port + 1000 <= u16::MAX,
    ensures
        plan.control@ == config.bind_addr@ + ":"@ + decimal(config.bind_port as nat),
        config.work_conn_port matches Some(p) ==> plan.work@ == config.bind_addr@ + ":"@ + decimal(
            p as nat,
        ),
        config.work_conn_port is None ==> plan.work@ == config.bind_addr@ + ":"@ + decimal(
            (config.bind_port + 1000) as nat,
        ),
        plan.kcp is Some == config.kcp_bind_port is Some,
        config.kcp_bind_port matches Some(p) ==> plan.kcp->0@ == config.bind_addr@ + ":"@ + decimal(
            p as nat,
        ),
{
}

/// A server that has to encrypt everything is not made without encryption, and does not
/// start with KCP; any other server with a way to log in is made and starts.
pub proof fn law_encryption_is_kept(
    config: ServerConfig,
    path: Option<String>,
    made: Result<Server, ServerError>,
    started: Result<ListenPlan, ServerError>,
)
    requires
        call_ensures(Server::new, (config, path), made),
        made is Ok ==> call_ensures(Server::start, (&made->Ok_0,), started),
        config.auth.method@ == "token"@,
        config.auth.token is Some,
    ensures
        made is Ok == (config.transport.tls_only ==> config.transport.tls is Some
            && config.transport.tls->0.enable),
        made is Ok ==> started is Ok == !(config.transport.tls_only
            && config.kcp_bind_port is Some),
{
}

/// The certificate of a server comes from its files where encryption is on and both are
/// given, and is the built-in one where only one or none is given.
pub proof fn law_certificate_of_a_server(transport: TransportConfig, source: TlsSource)
    requires
        call_ensures(server_tls_source, (&transport,), source),
    ensures
        transport.tls is None ==> source is Disabled,
        transport.tls matches Some(tls) ==> {
            &&& !tls.enable ==> source is Disabled
            &&& tls.enable && tls.cert_file is Some && tls.key_file is Some ==> (
            source matches TlsSource::Files { cert_file, key_file } && cert_file@
                == tls.cert_file->0@ && key_file@ == tls.key_file->0@)
            &&& tls.enable && (tls.cert_file is None || tls.key_file is None) ==> source is Builtin
        },
{
}

/// A client checks the certificate of its server against the file that its settings
/// name, and not at all without one; it does not encrypt where encryption is off.
pub proof fn law_trust_of_a_client(config: ClientConfig, tls: ClientTls)
    requires
        call_ensures(build_client_tls_config, (&config,), tls),
    ensures
        config.transport.tls is None ==> tls is Disabled,
        config.transport.tls matches Some(t) ==> {
            &&& !t.enable ==> tls is Disabled
            &&& t.enable && t.trusted_ca_file is Some ==> (tls matches ClientTls::CaFile { path }
                && path@ == t.trusted_ca_file->0@)
            &&& t.enable && t.trusted_ca_file is None ==> tls is Insecure
        },
{
}

/// Where a client has to encrypt, it does so as its settings say, or not at all where
/// they switch encryption off.
pub proof fn law_required_encryption(
    config: ClientConfig,
    tls: ClientTls,
    mux: Result<ClientTls, ClientError>,
    work: Result<ClientTls, ClientError>,
)
    requires
        call_ensures(build_client_tls_config, (&config,), tls),
        call_ensures(mux_tls, (&config,), mux),
        call_ensures(work_conn_tls, (&config,), work),
    ensures
        tls is Disabled ==> mux is Err && work is Err,
        !(tls is Disabled) ==> mux == Ok::<ClientTls, ClientError>(tls) && work == Ok::<
            ClientTls,
            ClientError,
        >(tls),
{
}

/// A client reaches its server at the address and port of its settings, by the protocol
/// that they name; TCP is carried by one connection where multiplexing is on. It encrypts
/// unless encryption is switched off.
pub proof fn law_transport_of_a_client(config: ClientConfig, transport: ControlTransport)
    requires
        call_ensures(choose_transport, (&config,), transport),
    ensures
        ({
            let server = config.server_addr@ + ":"@ + decimal(config.server_port as nat);
            let plain = config.transport.tls is Some && !config.transport.tls->0.enable;
            let protocol = config.transport.protocol@;
            &&& protocol == "kcp"@ ==> (transport matches ControlTransport::Kcp { addr } && addr@
                == server)
            &&& protocol == "websocket"@ ==> (transport matches ControlTransport::WebSocket { url }
                && url@ == (if plain {
                "ws"@
            } else {
                "wss"@
            }) + "://"@ + server + "/ws"@)
            &&& protocol != "kcp"@ && protocol != "websocket"@ ==> match transport {
                ControlTransport::Mux { addr, secure } => config.transport.tcp_mux && addr@ == server
                    && secure == !plain,
                ControlTransport::Tls { addr } => !config.transport.tcp_mux && !plain && addr@
                    == server,
                ControlTransport::Tcp { addr } => !config.transport.tcp_mux && plain && addr@
                    == server,
                _ => false,
            }
        }),
{
    reveal_strlit("kcp");
    reveal_strlit("websocket");
    assert("kcp"@.len() != "websocket"@.len());
}

/// A client opens its work connections where a server with the same ports listens for
/// them, and over the connection that carries everything where there is one.
pub proof fn law_work_conns_meet(
    server_config: ServerConfig,
    path: Option<String>,
    server: Server,
    plan: ListenPlan,
    config: ClientConfig,
    secure: bool,
    has_mux: bool,
    route: WorkRoute,
)
    requires
        call_ensures(Server::new, (server_config, path), Ok(server)),
        call_ensures(Server::start, (&server,), Ok(plan)),
        server_config.work_conn_port is None ==> server_config.bind_port + 1000 <= u16::MAX,
        config.server_addr@ == server_config.bind_addr@,
        config.server_port == server_config.bind_port,
        config.work_conn_port == server_config.work_conn_port,
        call_ensures(work_route, (&config, secure, has_mux), route),
    ensures
        has_mux ==> route is Mux,
        !has_mux ==> (route matches WorkRoute::Direct { addr, secure: s } && addr@ == plan.work@
            && s == secure),
{
}

/// A web server listens exactly where a port is given for it.
pub proof fn law_web_server_port(
    config: ServerConfig,
    path: Option<String>,
    server: Server,
    addr: Option<String>,
)
    requires
        call_ensures(Server::new, (config, path), Ok(server)),
        call_ensures(Server::web_addr, (&server,), addr),
    ensures
        addr is Some == (config.web_server.port > 0),
        addr is Some ==> addr->0@ == config.web_server.addr@ + ":"@ + decimal(
            config.web_server.port as nat,
        ),
{
}

/// So does the web server of a client.
pub proof fn law_client_web_server_port(
    config: ClientConfig,
    path: Option<String>,
    client: Client,
    addr: Option<String>,
)
    requires
        call_ensures(Client::new, (config, path), Ok(client)),
        call_ensures(Client::web_addr, (&client,), addr),
    ensures
        addr is Some == (config.web_server.port > 0),
        addr is Some ==> addr->0@ == config.web_server.addr@ + ":"@ + decimal(
            config.web_server.port as nat,
        ),
{
}

/// Every visitor of the kind `stcp` or `xtcp` is listened for at its own address and
/// port, in the order of the settings, for the proxy that it visits, and no other visitor
/// is: the last one is, and the ones before it are listened for as without it.
pub proof fn law_visitors_are_listened_for(
    config: ClientConfig,
    list: Vec<VisitorListener>,
    shorter: ClientConfig,
    others: Vec<VisitorListener>,
)
    requires
        call_ensures(visitor_listeners, (&config,), list),
        call_ensures(visitor_listeners, (&shorter,), others),
        config.visitors@.len() > 0,
        shorter.visitors@ == config.visitors@.drop_last(),
    ensures
        ({
            let v = config.visitors@.last();
            let wanted = v.kind@ == "stcp"@ || v.kind@ == "xtcp"@;
            &&& list@.len() == others@.len() + (if wanted {
                1int
            } else {
                0int
            })
            &&& wanted ==> list@.last().bind_addr@ == v.bind_addr@ + ":"@ + decimal(
                v.bind_port as nat,
            ) && list@.last().proxy_name@ == v.server_name@
            &&& forall|i: int|
                #![trigger others@[i]]
                0 <= i < others@.len() ==> others@[i].bind_addr@ == list@[i].bind_addr@
                    && others@[i].proxy_name@ == list@[i].proxy_name@
        }),
{
    reveal(Seq::filter);
}

/// An address and a port are written with a colon between them.
pub proof fn law_addresses_are_written(addr: &str, port: u16, text: String)
    requires
        call_ensures(join_host_port, (addr, port), text),
    ensures
        text@ == addr@ + ":"@ + decimal(port as nat),
{
}

/// A client expects the work port where the settings give it, or a thousand above the port
/// of its server.
pub proof fn law_work_port_of_a_client(config: ClientConfig, port: u16)
    requires
        config.work_conn_port is None ==> config.server_port + 1000 <= u16::MAX,
        call_ensures(work_conn_port_of, (&config,), port),
    ensures
        config.work_conn_port matches Some(p) ==> port == p,
        config.work_conn_port is None ==> port == config.server_port + 1000,
{
}

} // verus!
