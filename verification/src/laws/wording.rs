//! What refusals and errors say.
use crate::auth::{AuthError, AuthSetupError};
use crate::client::ClientError;
use crate::config::{ConfigError, ConfigProblem};
use crate::groups::GroupError;
use crate::laws::metrics::holds;
use crate::link::bad_gateway_text;
use crate::message::{CoreError, ReadError};
use crate::proxies::ProxyRefusal;
use crate::retry::ConnectionError;
use crate::server::{peer_gone, ServerError};
use crate::streams::NetError;
use crate::text::decimal;
use crate::vhost::{
    bad_request_text, gateway_timeout_text, no_channel_text, no_members_text, no_owner_text,
    not_found_text,
};
use crate::work::WorkConnRefusal;
use vstd::prelude::*;
use vstd::string::*;
use vstd::utf8::encode_utf8;

verus! {

/// A proxy that is refused is told by its name, with the user and the limit, the group or
/// the port that the refusal is about.
pub proof fn law_refusals_say_why(refusal: ProxyRefusal, text: String)
    requires
        call_ensures(ProxyRefusal::message, (&refusal,), text),
    ensures
        match refusal {
            ProxyRefusal::AlreadyExists { name } => text@ == "proxy ["@ + name@
                + "] already exists"@,
            ProxyRefusal::GroupNotTcp { name } => text@ == "proxy ["@ + name@
                + "] rejected: group is only supported for tcp proxies"@,
            ProxyRefusal::GroupWithPlugin { name } => text@ == "proxy ["@ + name@
                + "] rejected: group and plugin cannot be used together"@,
            ProxyRefusal::GroupWithoutPort { name, group } => text@ == "proxy ["@ + name@
                + "] rejected: group ["@ + group@ + "] requires remote_port"@,
            ProxyRefusal::QuotaExceeded { name, user, limit } => text@ == "proxy ["@ + name@
                + "] rejected: user ["@ + user@ + "] exceeds max_ports_per_user limit "@ + decimal(
                limit as nat,
            ),
            ProxyRefusal::PortNotAllowed { port } => text@ == "Port "@ + decimal(port as nat)
                + " is not in the allowed ports list"@,
            ProxyRefusal::Group {
                error: GroupError::BoundElsewhere { group, bound, port },
            } => text@ == "group ["@ + group@ + "] is bound to port "@ + decimal(bound as nat)
                + ", cannot join port "@ + decimal(port as nat),
            ProxyRefusal::Group { error: GroupError::PortTaken { port, group } } => text@
                == "port "@ + decimal(port as nat) + " is already bound by group ["@ + group@
                + "]"@,
            ProxyRefusal::Group { error: GroupError::KeyMismatch { group } } => text@ == "group ["@
                + group@ + "] auth failed: group_key mismatch"@,
            ProxyRefusal::UdpWithoutPort => text@ == "UDP proxy requires remote_port"@,
        },
{
}

/// What is wrong with a way to log in, or with the settings, is named.
pub proof fn law_problems_are_named(
    setup: AuthSetupError,
    a: String,
    login: AuthError,
    b: String,
    problem: ConfigProblem,
    c: String,
)
    requires
        call_ensures(AuthSetupError::message, (&setup,), a),
        call_ensures(AuthError::message, (&login,), b),
        call_ensures(ConfigProblem::message, (&problem,), c),
    ensures
        setup is TokenRequired ==> a@ == "token is required for token auth"@,
        setup is OidcConfigRequired ==> a@ == "oidc config is required for oidc auth"@,
        setup matches AuthSetupError::UnsupportedMethod(m) ==> a@ == "unsupported auth method: "@
            + m@,
        login is InvalidToken ==> b@ == "invalid token"@,
        login is TokenRequired ==> b@ == "token is required for token auth"@,
        login is OidcConfigRequired ==> b@ == "OIDC config is required for OIDC auth"@,
        login is EncryptionKeyNotSet ==> b@ == "encryption key not set"@,
        login is HmacSignError ==> b@ == "HMAC signing failed"@,
        login matches AuthError::UnsupportedMethod(m) ==> b@ == "unsupported auth method: "@ + m@,
        login matches AuthError::Internal(e) ==> b@ == "internal error: "@ + e@,
        problem is BindPortRequired ==> c@ == "bind_port is required"@,
        problem is ServerAddrRequired ==> c@ == "server_addr is required"@,
        problem is ServerPortRequired ==> c@ == "server_port is required"@,
{
}

/// Errors of files, of connections and of messages say what they are about.
pub proof fn law_errors_say_what_they_are_about(
    config: ConfigError,
    a: String,
    net: NetError,
    b: String,
    client: ClientError,
    c: String,
    core: CoreError,
    d: String,
    read: ReadError,
    e: String,
    connection: ConnectionError,
    f: String,
    work: WorkConnRefusal,
    g: String,
)
    requires
        call_ensures(ConfigError::message, (&config,), a),
        call_ensures(NetError::message, (&net,), b),
        call_ensures(ClientError::message, (&client,), c),
        call_ensures(CoreError::message, (&core,), d),
        call_ensures(ReadError::message, (&read,), e),
        call_ensures(ConnectionError::message, (&connection,), f),
        call_ensures(WorkConnRefusal::message, (&work,), g),
    ensures
        match config {
            ConfigError::Io(t) => a@ == "I/O error: "@ + t@,
            ConfigError::Toml(t) => a@ == "TOML parse error: "@ + t@,
            ConfigError::Yaml(t) => a@ == "YAML parse error: "@ + t@,
            ConfigError::Json(t) => a@ == "JSON parse error: "@ + t@,
            ConfigError::Glob(t) => a@ == "glob pattern error: "@ + t@,
            ConfigError::Invalid(t) => a@ == "invalid configuration: "@ + t@,
        },
        match net {
            NetError::Io(t) => b@ == "I/O error: "@ + t@,
            NetError::Tls(t) => b@ == "TLS error: "@ + t@,
            NetError::PemDecode(t) => b@ == "PEM decode error: "@ + t@,
            NetError::NotServerConfig => b@ == "not a TLS server config"@,
            NetError::NotClientConfig => b@ == "not a TLS client config"@,
            NetError::TlsConfigNotSet => b@ == "TLS config not set"@,
            NetError::Other(t) => b@ == t@,
        },
        match client {
            ClientError::Io(t) => c@ == "I/O error: "@ + t@,
            ClientError::NoWorkConnHandler(n) => c@ == "no work conn handler for proxy: "@ + n@,
            ClientError::WorkConnManagerNotSet => c@ == "WorkConnManager not set"@,
            ClientError::Other(t) => c@ == t@,
        },
        match core {
            CoreError::MessageTooLarge(n, max) => d@ == "message too large: "@ + decimal(n as nat)
                + " bytes (max: "@ + decimal(max as nat) + ")"@,
            CoreError::SerializationFailed(t) => d@ == "JSON serialization failed: "@ + t@,
            CoreError::Io(t) => d@ == "I/O error: "@ + t@,
            CoreError::Other(t) => d@ == t@,
        },
        read is Truncated ==> e@ == "early eof"@,
        read matches ReadError::TooLarge(n) ==> e@ == "message size too large: "@ + decimal(
            n as nat,
        ) + " bytes (max: "@ + decimal(10485760) + ")"@,
        match connection {
            ConnectionError::Io { kind: _, text } => f@ == "IO error: "@ + text@,
            ConnectionError::Timeout => f@ == "Connection timeout"@,
            ConnectionError::Refused => f@ == "Connection refused"@,
            ConnectionError::Reset => f@ == "Connection reset"@,
            ConnectionError::Other(t) => f@ == t@,
        },
        match work {
            WorkConnRefusal::UnexpectedMessage => g@ == "Unexpected message on work conn"@,
            WorkConnRefusal::UnknownRunId => g@ == "Unknown run_id"@,
            WorkConnRefusal::SignKeyMismatch => g@ == "Sign key mismatch"@,
        },
{
}

/// So do the errors of a server, but for the words of an I/O error.
pub proof fn law_server_errors_say_what_they_are_about(error: ServerError, text: String)
    requires
        call_ensures(ServerError::message, (&error,), text),
    ensures
        match error {
            ServerError::Io(_) => "I/O error: "@.is_prefix_of(text@),
            ServerError::Auth(t) => text@ == "authentication failed: "@ + t@,
            ServerError::ProxyNotFound(n) => text@ == "proxy not found: "@ + n@,
            ServerError::PortNotAllowed(p) => text@ == "port not allowed: "@ + decimal(p as nat),
            ServerError::ProxyAlreadyExists(n) => text@ == "proxy already exists: "@ + n@,
            ServerError::WorkConnTimeout => text@ == "work conn request timeout"@,
            ServerError::RunIdMismatch => text@ == "run ID mismatch"@,
            ServerError::Other(t) => text@ == t@,
        },
{
}

/// A visitor who cannot be served is told so in HTTP: each answer begins with its own
/// status.
pub proof fn law_visitors_are_told_in_http(
    bad: String,
    owner: String,
    channel: String,
    members: String,
    timeout: String,
    host: &str,
    missing: String,
    error: &str,
    gateway: String,
)
    requires
        call_ensures(bad_request_text, (), bad),
        call_ensures(no_owner_text, (), owner),
        call_ensures(no_channel_text, (), channel),
        call_ensures(no_members_text, (), members),
        call_ensures(gateway_timeout_text, (), timeout),
        call_ensures(not_found_text, (host,), missing),
        encode_utf8(error@).len() + 45 <= u64::MAX,
        call_ensures(bad_gateway_text, (error,), gateway),
    ensures
        bad@ == "HTTP/1.1 400 Bad Request\r\nContent-Length: 0\r\n\r\n"@,
        owner@
            == "HTTP/1.1 503 Service Unavailable\r\nContent-Type: text/plain\r\nContent-Length: 30\r\n\r\nProxy not registered by any client"@,
        channel@
            == "HTTP/1.1 503 Service Unavailable\r\nContent-Type: text/plain\r\nContent-Length: 37\r\n\r\nMessage channel not found"@,
        members@
            == "HTTP/1.1 503 Service Unavailable\r\nContent-Type: text/plain\r\nContent-Length: 29\r\n\r\nNo available group members"@,
        timeout@ == "HTTP/1.1 504 Gateway Timeout\r\n\r\n"@,
        missing@ == "HTTP/1.1 404 Not Found\r\nContent-Type: text/plain\r\nContent-Length: "@
            + decimal(encode_utf8("Proxy not found for host: "@ + host@).len()) + "\r\n\r\n"@
            + ("Proxy not found for host: "@ + host@),
        gateway@ == "HTTP/1.1 502 Bad Gateway\r\nContent-Type: text/plain\r\nContent-Length: "@
            + decimal(encode_utf8(error@).len() + 45)
            + "\r\n\r\nFailed to connect to local service after retries: "@ + error@,
{
}

/// An error says that the other end went away where it speaks, in any case, of a
/// connection that was reset or aborted, or of a broken pipe, and not otherwise.
pub proof fn law_peers_that_are_gone(text: &str, gone: bool)
    requires
        call_ensures(peer_gone, (text,), gone),
    ensures
        ({
            let lower = crate::codec::lowercase_of(text@);
            gone == (holds(lower, "connection reset"@) || holds(lower, "connection aborted"@)
                || holds(lower, "broken pipe"@))
        }),
{
    let lower = crate::codec::lowercase_of(text@);
    lemma_holds_iff(lower, "connection reset"@);
    lemma_holds_iff(lower, "connection aborted"@);
    lemma_holds_iff(lower, "broken pipe"@);
}

proof fn lemma_holds_iff(s: Seq<char>, part: Seq<char>)
    ensures
        crate::text::spec_contains(s, part) == holds(s, part),
{
    if crate::text::spec_contains(s, part) {
        let i = choose|i: int|
            0 <= i <= s.len() - part.len() && #[trigger] s.subrange(i, i + part.len()) == part;
        assert(s =~= s.take(i) + part + s.skip(i + part.len()));
    }
    if holds(s, part) {
        let (a, b) = choose|a: Seq<char>, b: Seq<char>| s == #[trigger] (a + part + b);
        let at = a.len() as int;
        assert(s.subrange(at, at + part.len()) =~= part);
    }
}

} // verus!
