//! References to the environment in the texts of the settings: `${NAME}` stands for the
//! value of the variable, in every text of a server's or a client's settings.
use crate::config::{
    text_values, AuthConfig, ClientConfig, ConfigLoader, HealthCheckConfig, OidcConfig,
    PluginConfig, PortRange, ProxyConfig, ServerConfig, TlsConfig, TransportConfig, VisitorConfig,
    WebServerConfig,
};
use crate::names::NameMap;
use crate::text::{chars_of, find, find_from, lemma_find_bound, string_of};
use vstd::prelude::*;
use vstd::string::*;

verus! {

/// The position of the first `${` in `s`, or the length of `s` where there is none.
pub open spec fn ref_start(s: Seq<char>) -> nat
    decreases s.len(),
{
    if s.len() < 2 {
        s.len()
    } else if s[0] == '$' && s[1] == '{' {
        0
    } else {
        1 + ref_start(s.drop_first())
    }
}

/// The length of the name in the reference that begins at `ref_start(s)`.
pub open spec fn ref_name_len(s: Seq<char>) -> nat {
    find(s.skip(ref_start(s) as int + 2), '}')
}

/// Whether the first `${` of `s` has a closing brace after it.
pub open spec fn has_ref(s: Seq<char>) -> bool {
    let i = ref_start(s) as int;
    i < s.len() && i + 2 + ref_name_len(s) < s.len()
}

/// What a variable stands for; the empty text where it is not set.
pub open spec fn env_value(env: Map<Seq<char>, Seq<char>>, name: Seq<char>) -> Seq<char> {
    if env.contains_key(name) {
        env[name]
    } else {
        seq![]
    }
}

/// `s` with its first reference replaced by the value of the variable.
pub open spec fn env_step(s: Seq<char>, env: Map<Seq<char>, Seq<char>>) -> Seq<char> {
    let i = ref_start(s) as int;
    let n = ref_name_len(s) as int;
    s.take(i) + env_value(env, s.subrange(i + 2, i + 2 + n)) + s.skip(i + 3 + n)
}

/// `s` with references replaced until its first `${`, if any, has no closing
/// brace; nothing where that takes more than `limit` replacements.
pub open spec fn expanded(
    s: Seq<char>,
    env: Map<Seq<char>, Seq<char>>,
    limit: nat,
) -> Option<Seq<char>>
    decreases limit,
{
    if !has_ref(s) {
        Some(s)
    } else if limit == 0 {
        None
    } else {
        expanded(env_step(s, env), env, (limit - 1) as nat)
    }
}

proof fn lemma_ref_start(s: Seq<char>, i: int)
    requires
        0 <= i <= s.len(),
        forall|j: int| 0 <= j < i && j + 1 < s.len() ==> !(s[j] == '$' && #[trigger] s[j + 1] == '{'),
        i < s.len() ==> i + 1 < s.len() && s[i] == '$' && s[i + 1] == '{',
    ensures
        ref_start(s) == i,
    decreases s.len(),
{
    if s.len() >= 2 && i > 0 {
        assert(!(s[0] == '$' && s[0int + 1] == '{'));
        let t = s.drop_first();
        assert forall|j: int| 0 <= j < i - 1 && j + 1 < t.len() implies !(t[j] == '$' && #[trigger] t[j
            + 1] == '{') by {
            assert(!(s[j + 1] == '$' && s[j + 1 + 1] == '{'));
        }
        lemma_ref_start(t, i - 1);
    }
}

proof fn lemma_ref_start_bound(s: Seq<char>)
    ensures
        ref_start(s) <= s.len(),
        ref_start(s) < s.len() ==> ref_start(s) + 1 < s.len() && s[ref_start(s) as int] == '$'
            && s[ref_start(s) as int + 1] == '{',
    decreases s.len(),
{
    if s.len() >= 2 && !(s[0] == '$' && s[1] == '{') {
        lemma_ref_start_bound(s.drop_first());
    }
}

/// The first `${` of `chars`, or its length.
fn find_ref_start(chars: &Vec<char>) -> (i: usize)
    ensures
        i == ref_start(chars@),
        i <= chars.len(),
        i < chars.len() ==> i + 1 < chars.len(),
{
    let mut i: usize = 0;
    while i < chars.len() && i < chars.len() - 1 && !(chars[i] == '$' && chars[i + 1] == '{')
        invariant
            i <= chars.len(),
            chars.len() <= usize::MAX,
            forall|j: int|
                0 <= j < i && j + 1 < chars.len() ==> !(chars[j] == '$' && #[trigger] chars[j + 1]
                    == '{'),
        decreases chars.len() - i,
    {
        i = i + 1;
    }
    let r: usize = if i < chars.len() && i < chars.len() - 1 {
        i
    } else {
        chars.len()
    };
    proof {
        lemma_ref_start(chars@, r as int);
    }
    r
}

/// How often `$` occurs in `s`.
pub open spec fn dollars(s: Seq<char>) -> nat
    decreases s.len(),
{
    if s.len() == 0 {
        0
    } else {
        dollars(s.drop_last()) + (if s.last() == '$' {
            1nat
        } else {
            0nat
        })
    }
}

proof fn lemma_dollars_concat(a: Seq<char>, b: Seq<char>)
    ensures
        dollars(a + b) == dollars(a) + dollars(b),
    decreases b.len(),
{
    if b.len() == 0 {
        assert(a + b == a);
    } else {
        assert((a + b).drop_last() == a + b.drop_last());
        lemma_dollars_concat(a, b.drop_last());
    }
}

/// Where no variable's value holds a `$`, each replacement leaves fewer of them.
pub proof fn law_env_step_consumes(s: Seq<char>, env: Map<Seq<char>, Seq<char>>)
    requires
        has_ref(s),
        forall|name: Seq<char>| #[trigger] env.contains_key(name) ==> dollars(env[name]) == 0,
    ensures
        dollars(env_step(s, env)) < dollars(s),
{
    lemma_ref_start_bound(s);
    let i = ref_start(s) as int;
    let n = ref_name_len(s) as int;
    lemma_find_bound(s.skip(i + 2), '}');
    let name = s.subrange(i + 2, i + 2 + n);
    let v = env_value(env, name);
    assert(dollars(v) == 0);
    let tail = s.skip(i + 3 + n);
    lemma_dollars_concat(s.take(i) + v, tail);
    lemma_dollars_concat(s.take(i), v);
    let mid = s.subrange(i, i + 3 + n);
    assert(s == s.take(i) + (mid + tail));
    lemma_dollars_concat(s.take(i), mid + tail);
    lemma_dollars_concat(mid, tail);
    assert(mid == seq!['$'] + mid.skip(1));
    lemma_dollars_concat(seq!['$'], mid.skip(1));
    assert(seq!['$'].drop_last() == Seq::<char>::empty());
    assert(dollars(Seq::<char>::empty()) == 0);
    assert(dollars(seq!['$']) == 1);
}

/// Where no variable's value holds a `$`, expansion ends within as many
/// replacements as the text holds `$`, and leaves no complete reference.
pub proof fn law_env_expansion_ends(s: Seq<char>, env: Map<Seq<char>, Seq<char>>, limit: nat)
    requires
        forall|name: Seq<char>| #[trigger] env.contains_key(name) ==> dollars(env[name]) == 0,
        limit >= dollars(s),
    ensures
        expanded(s, env, limit) is Some,
        !has_ref(expanded(s, env, limit)->0),
    decreases limit,
{
    if has_ref(s) {
        law_env_step_consumes(s, env);
        law_env_expansion_ends(env_step(s, env), env, (limit - 1) as nat);
    }
}

/// Expanded text is left alone by expanding it again.
pub proof fn law_env_expansion_idempotent(s: Seq<char>, env: Map<Seq<char>, Seq<char>>, limit: nat)
    requires
        expanded(s, env, limit) is Some,
    ensures
        expanded(expanded(s, env, limit)->0, env, limit) == expanded(s, env, limit),
    decreases limit,
{
    lemma_expanded_has_no_ref(s, env, limit);
}

proof fn lemma_expanded_has_no_ref(s: Seq<char>, env: Map<Seq<char>, Seq<char>>, limit: nat)
    requires
        expanded(s, env, limit) is Some,
    ensures
        !has_ref(expanded(s, env, limit)->0),
    decreases limit,
{
    if has_ref(s) {
        lemma_expanded_has_no_ref(env_step(s, env), env, (limit - 1) as nat);
    }
}

/// How references are replaced: the values of the variables, and how many references
/// in one text are replaced at most.
pub struct Expansion {
    pub env: Map<Seq<char>, Seq<char>>,
    pub limit: nat,
}

/// The expansion with the variables of a map.
pub open spec fn expansion_of(env: NameMap<String>, limit: usize) -> Expansion {
    Expansion { env: text_values(env@), limit: limit as nat }
}

/// Whether the expansion of a text ends.
pub open spec fn text_expands(c: String, e: Expansion) -> bool {
    expanded(c@, e.env, e.limit) is Some
}

/// A text with its references replaced.
pub open spec fn text_expanded(c: String, e: Expansion, out: String) -> bool {
    expanded(c@, e.env, e.limit) == Some(out@)
}

/// Whether the expansion of a text ends, where it is given.
pub open spec fn optional_expands(c: Option<String>, e: Expansion) -> bool {
    c matches Some(t) ==> text_expands(t, e)
}

/// A text with its references replaced, where it is given.
pub open spec fn optional_expanded(c: Option<String>, e: Expansion, out: Option<String>) -> bool {
    match (c, out) {
        (Some(t), Some(u)) => text_expanded(t, e, u),
        (None, None) => true,
        _ => false,
    }
}

/// Whether the expansion of each of a list of texts ends, where it is given.
pub open spec fn list_expands(c: Option<Vec<String>>, e: Expansion) -> bool {
    c matches Some(l) ==> forall|i: int| 0 <= i < l@.len() ==> text_expands(#[trigger] l@[i], e)
}

/// A list of texts with their references replaced, where it is given.
pub open spec fn list_expanded(
    c: Option<Vec<String>>,
    e: Expansion,
    out: Option<Vec<String>>,
) -> bool {
    match (c, out) {
        (Some(l), Some(m)) => m@.len() == l@.len() && forall|i: int|
            0 <= i < l@.len() ==> text_expanded(#[trigger] l@[i], e, m@[i]),
        (None, None) => true,
        _ => false,
    }
}

/// Whether the expansion of every text in the settings of a web server ends.
pub open spec fn web_server_expands(c: WebServerConfig, e: Expansion) -> bool {
    &&& text_expands(c.addr, e)
    &&& optional_expands(c.user, e)
    &&& optional_expands(c.password, e)
}

/// The settings of a web server, with all references replaced.
pub open spec fn web_server_expanded(
    c: WebServerConfig,
    e: Expansion,
    out: WebServerConfig,
) -> bool {
    &&& text_expanded(c.addr, e, out.addr)
    &&& optional_expanded(c.user, e, out.user)
    &&& optional_expanded(c.password, e, out.password)
    &&& out.port == c.port
}

/// Whether the expansion of every text in the settings of a provider ends.
pub open spec fn oidc_expands(c: OidcConfig, e: Expansion) -> bool {
    &&& text_expands(c.issuer, e)
    &&& text_expands(c.audience, e)
    &&& text_expands(c.client_id, e)
    &&& text_expands(c.client_secret, e)
    &&& text_expands(c.token_endpoint_url, e)
}

/// The settings of a provider, with all references replaced.
pub open spec fn oidc_expanded(c: OidcConfig, e: Expansion, out: OidcConfig) -> bool {
    &&& text_expanded(c.issuer, e, out.issuer)
    &&& text_expanded(c.audience, e, out.audience)
    &&& text_expanded(c.client_id, e, out.client_id)
    &&& text_expanded(c.client_secret, e, out.client_secret)
    &&& text_expanded(c.token_endpoint_url, e, out.token_endpoint_url)
}

/// The same, where it is given.
pub open spec fn optional_oidc_expands(c: Option<OidcConfig>, e: Expansion) -> bool {
    c matches Some(x) ==> oidc_expands(x, e)
}

/// The same, where it is given.
pub open spec fn optional_oidc_expanded(
    c: Option<OidcConfig>,
    e: Expansion,
    out: Option<OidcConfig>,
) -> bool {
    match (c, out) {
        (Some(x), Some(y)) => oidc_expanded(x, e, y),
        (None, None) => true,
        _ => false,
    }
}

/// Whether the expansion of every text in how clients prove who they are ends.
pub open spec fn auth_expands(c: AuthConfig, e: Expansion) -> bool {
    &&& text_expands(c.method, e)
    &&& optional_expands(c.token, e)
    &&& optional_oidc_expands(c.oidc, e)
}

/// How clients prove who they are, with all references replaced.
pub open spec fn auth_expanded(c: AuthConfig, e: Expansion, out: AuthConfig) -> bool {
    &&& text_expanded(c.method, e, out.method)
    &&& optional_expanded(c.token, e, out.token)
    &&& optional_oidc_expanded(c.oidc, e, out.oidc)
}

/// Whether the expansion of every text in the settings of encrypted connections ends.
pub open spec fn tls_expands(c: TlsConfig, e: Expansion) -> bool {
    &&& optional_expands(c.cert_file, e)
    &&& optional_expands(c.key_file, e)
    &&& optional_expands(c.trusted_ca_file, e)
}

/// The settings of encrypted connections, with all references replaced.
pub open spec fn tls_expanded(c: TlsConfig, e: Expansion, out: TlsConfig) -> bool {
    &&& optional_expanded(c.cert_file, e, out.cert_file)
    &&& optional_expanded(c.key_file, e, out.key_file)
    &&& optional_expanded(c.trusted_ca_file, e, out.trusted_ca_file)
    &&& out.enable == c.enable
    &&& out.skip_verify == c.skip_verify
    &&& out.force == c.force
}

/// The same, where it is given.
pub open spec fn optional_tls_expands(c: Option<TlsConfig>, e: Expansion) -> bool {
    c matches Some(x) ==> tls_expands(x, e)
}

/// The same, where it is given.
pub open spec fn optional_tls_expanded(
    c: Option<TlsConfig>,
    e: Expansion,
    out: Option<TlsConfig>,
) -> bool {
    match (c, out) {
        (Some(x), Some(y)) => tls_expanded(x, e, y),
        (None, None) => true,
        _ => false,
    }
}

/// Whether the expansion of every text in how two ends reach each other ends.
pub open spec fn transport_expands(c: TransportConfig, e: Expansion) -> bool {
    &&& text_expands(c.protocol, e)
    &&& optional_tls_expands(c.tls, e)
    &&& optional_expands(c.bandwidth_limit, e)
}

/// How two ends reach each other, with all references replaced.
pub open spec fn transport_expanded(
    c: TransportConfig,
    e: Expansion,
    out: TransportConfig,
) -> bool {
    &&& text_expanded(c.protocol, e, out.protocol)
    &&& optional_tls_expanded(c.tls, e, out.tls)
    &&& optional_expanded(c.bandwidth_limit, e, out.bandwidth_limit)
    &&& out.tcp_mux == c.tcp_mux
    &&& out.tls_only == c.tls_only
    &&& out.pool_count == c.pool_count
}

/// The same, where it is given.
pub open spec fn optional_transport_expands(c: Option<TransportConfig>, e: Expansion) -> bool {
    c matches Some(x) ==> transport_expands(x, e)
}

/// The same, where it is given.
pub open spec fn optional_transport_expanded(
    c: Option<TransportConfig>,
    e: Expansion,
    out: Option<TransportConfig>,
) -> bool {
    match (c, out) {
        (Some(x), Some(y)) => transport_expanded(x, e, y),
        (None, None) => true,
        _ => false,
    }
}

/// Whether the expansion of every text in how a local service is probed ends.
pub open spec fn health_expands(c: HealthCheckConfig, e: Expansion) -> bool {
    &&& text_expands(c.kind, e)
    &&& optional_expands(c.path, e)
}

/// How a local service is probed, with all references replaced.
pub open spec fn health_expanded(
    c: HealthCheckConfig,
    e: Expansion,
    out: HealthCheckConfig,
) -> bool {
    &&& text_expanded(c.kind, e, out.kind)
    &&& optional_expanded(c.path, e, out.path)
    &&& out.timeout_seconds == c.timeout_seconds
    &&& out.max_failed == c.max_failed
    &&& out.interval_seconds == c.interval_seconds
}

/// The same, where it is given.
pub open spec fn optional_health_expands(c: Option<HealthCheckConfig>, e: Expansion) -> bool {
    c matches Some(x) ==> health_expands(x, e)
}

/// The same, where it is given.
pub open spec fn optional_health_expanded(
    c: Option<HealthCheckConfig>,
    e: Expansion,
    out: Option<HealthCheckConfig>,
) -> bool {
    match (c, out) {
        (Some(x), Some(y)) => health_expanded(x, e, y),
        (None, None) => true,
        _ => false,
    }
}

/// Whether the expansion of every text in the settings of a plugin ends.
pub open spec fn plugin_expands(c: PluginConfig, e: Expansion) -> bool {
    &&& text_expands(c.kind, e)
    &&& optional_expands(c.unix_path, e)
    &&& optional_expands(c.local_path, e)
    &&& optional_expands(c.strip_prefix, e)
    &&& optional_expands(c.http_user, e)
    &&& optional_expands(c.http_password, e)
    &&& optional_expands(c.local_addr, e)
    &&& optional_expands(c.crt_path, e)
    &&& optional_expands(c.key_path, e)
}

/// The settings of a plugin, with all references replaced.
pub open spec fn plugin_expanded(c: PluginConfig, e: Expansion, out: PluginConfig) -> bool {
    &&& text_expanded(c.kind, e, out.kind)
    &&& optional_expanded(c.unix_path, e, out.unix_path)
    &&& optional_expanded(c.local_path, e, out.local_path)
    &&& optional_expanded(c.strip_prefix, e, out.strip_prefix)
    &&& optional_expanded(c.http_user, e, out.http_user)
    &&& optional_expanded(c.http_password, e, out.http_password)
    &&& optional_expanded(c.local_addr, e, out.local_addr)
    &&& optional_expanded(c.crt_path, e, out.crt_path)
    &&& optional_expanded(c.key_path, e, out.key_path)
}

/// The same, where it is given.
pub open spec fn optional_plugin_expands(c: Option<PluginConfig>, e: Expansion) -> bool {
    c matches Some(x) ==> plugin_expands(x, e)
}

/// The same, where it is given.
pub open spec fn optional_plugin_expanded(
    c: Option<PluginConfig>,
    e: Expansion,
    out: Option<PluginConfig>,
) -> bool {
    match (c, out) {
        (Some(x), Some(y)) => plugin_expanded(x, e, y),
        (None, None) => true,
        _ => false,
    }
}

/// Whether the expansion of every text in a proxy ends.
pub open spec fn proxy_expands(c: ProxyConfig, e: Expansion) -> bool {
    &&& text_expands(c.name, e)
    &&& text_expands(c.kind, e)
    &&& text_expands(c.local_ip, e)
    &&& list_expands(c.custom_domains, e)
    &&& optional_expands(c.subdomain, e)
    &&& list_expands(c.locations, e)
    &&& optional_expands(c.host_header_rewrite, e)
    &&& optional_expands(c.http_user, e)
    &&& optional_expands(c.http_password, e)
    &&& optional_health_expands(c.health_check, e)
    &&& optional_expands(c.bandwidth_limit, e)
    &&& optional_expands(c.secret_key, e)
    &&& optional_transport_expands(c.transport, e)
    &&& optional_plugin_expands(c.plugin, e)
    &&& optional_expands(c.group, e)
    &&& optional_expands(c.group_key, e)
}

/// A proxy, with all references replaced.
pub open spec fn proxy_expanded(c: ProxyConfig, e: Expansion, out: ProxyConfig) -> bool {
    &&& text_expanded(c.name, e, out.name)
    &&& text_expanded(c.kind, e, out.kind)
    &&& text_expanded(c.local_ip, e, out.local_ip)
    &&& list_expanded(c.custom_domains, e, out.custom_domains)
    &&& optional_expanded(c.subdomain, e, out.subdomain)
    &&& list_expanded(c.locations, e, out.locations)
    &&& optional_expanded(c.host_header_rewrite, e, out.host_header_rewrite)
    &&& optional_expanded(c.http_user, e, out.http_user)
    &&& optional_expanded(c.http_password, e, out.http_password)
    &&& optional_health_expanded(c.health_check, e, out.health_check)
    &&& optional_expanded(c.bandwidth_limit, e, out.bandwidth_limit)
    &&& optional_expanded(c.secret_key, e, out.secret_key)
    &&& optional_transport_expanded(c.transport, e, out.transport)
    &&& optional_plugin_expanded(c.plugin, e, out.plugin)
    &&& optional_expanded(c.group, e, out.group)
    &&& optional_expanded(c.group_key, e, out.group_key)
    &&& out.local_port == c.local_port
    &&& out.remote_port == c.remote_port
    &&& out.proxy_protocol == c.proxy_protocol
}

/// Whether the expansion of every text in each of the proxies ends.
pub open spec fn proxies_expands(c: Seq<ProxyConfig>, e: Expansion) -> bool {
    forall|i: int| 0 <= i < c.len() ==> proxy_expands(#[trigger] c[i], e)
}

/// The proxies, with all references replaced.
pub open spec fn proxies_expanded(
    c: Seq<ProxyConfig>,
    e: Expansion,
    out: Seq<ProxyConfig>,
) -> bool {
    out.len() == c.len() && forall|i: int|
        0 <= i < c.len() ==> proxy_expanded(#[trigger] c[i], e, out[i])
}

/// Whether the expansion of every text in a visitor ends.
pub open spec fn visitor_expands(c: VisitorConfig, e: Expansion) -> bool {
    &&& text_expands(c.name, e)
    &&& text_expands(c.kind, e)
    &&& text_expands(c.server_name, e)
    &&& optional_expands(c.secret_key, e)
    &&& text_expands(c.bind_addr, e)
    &&& optional_transport_expands(c.transport, e)
}

/// A visitor, with all references replaced.
pub open spec fn visitor_expanded(c: VisitorConfig, e: Expansion, out: VisitorConfig) -> bool {
    &&& text_expanded(c.name, e, out.name)
    &&& text_expanded(c.kind, e, out.kind)
    &&& text_expanded(c.server_name, e, out.server_name)
    &&& optional_expanded(c.secret_key, e, out.secret_key)
    &&& text_expanded(c.bind_addr, e, out.bind_addr)
    &&& optional_transport_expanded(c.transport, e, out.transport)
    &&& out.bind_port == c.bind_port
}

/// Whether the expansion of every text in each of the visitors ends.
pub open spec fn visitors_expands(c: Seq<VisitorConfig>, e: Expansion) -> bool {
    forall|i: int| 0 <= i < c.len() ==> visitor_expands(#[trigger] c[i], e)
}

/// The visitors, with all references replaced.
pub open spec fn visitors_expanded(
    c: Seq<VisitorConfig>,
    e: Expansion,
    out: Seq<VisitorConfig>,
) -> bool {
    out.len() == c.len() && forall|i: int|
        0 <= i < c.len() ==> visitor_expanded(#[trigger] c[i], e, out[i])
}

/// Whether the expansion of every text in the settings of a server ends.
pub open spec fn server_expands(c: ServerConfig, e: Expansion) -> bool {
    &&& text_expands(c.bind_addr, e)
    &&& web_server_expands(c.web_server, e)
    &&& auth_expands(c.auth, e)
    &&& transport_expands(c.transport, e)
    &&& optional_expands(c.custom_404_page, e)
    &&& list_expands(c.includes, e)
    &&& proxies_expands(c.proxies@, e)
}

/// The settings of a server, with all references replaced.
pub open spec fn server_expanded(c: ServerConfig, e: Expansion, out: ServerConfig) -> bool {
    &&& text_expanded(c.bind_addr, e, out.bind_addr)
    &&& web_server_expanded(c.web_server, e, out.web_server)
    &&& auth_expanded(c.auth, e, out.auth)
    &&& transport_expanded(c.transport, e, out.transport)
    &&& optional_expanded(c.custom_404_page, e, out.custom_404_page)
    &&& list_expanded(c.includes, e, out.includes)
    &&& proxies_expanded(c.proxies@, e, out.proxies@)
    &&& out.bind_port == c.bind_port
    &&& out.kcp_bind_port == c.kcp_bind_port
    &&& out.quic_bind_port == c.quic_bind_port
    &&& out.vhost_http_port == c.vhost_http_port
    &&& out.vhost_https_port == c.vhost_https_port
    &&& out.tcpmux_http_connect_port == c.tcpmux_http_connect_port
    &&& out.work_conn_port == c.work_conn_port
    &&& out.allow_ports@ == c.allow_ports@
    &&& out.max_ports_per_user == c.max_ports_per_user
}

/// Whether the expansion of every text in the settings of a client ends.
pub open spec fn client_expands(c: ClientConfig, e: Expansion) -> bool {
    &&& text_expands(c.server_addr, e)
    &&& optional_expands(c.user, e)
    &&& optional_expands(c.client_id, e)
    &&& web_server_expands(c.web_server, e)
    &&& auth_expands(c.auth, e)
    &&& transport_expands(c.transport, e)
    &&& proxies_expands(c.proxies@, e)
    &&& visitors_expands(c.visitors@, e)
    &&& list_expands(c.includes, e)
}

/// The settings of a client, with all references replaced.
pub open spec fn client_expanded(c: ClientConfig, e: Expansion, out: ClientConfig) -> bool {
    &&& text_expanded(c.server_addr, e, out.server_addr)
    &&& optional_expanded(c.user, e, out.user)
    &&& optional_expanded(c.client_id, e, out.client_id)
    &&& web_server_expanded(c.web_server, e, out.web_server)
    &&& auth_expanded(c.auth, e, out.auth)
    &&& transport_expanded(c.transport, e, out.transport)
    &&& proxies_expanded(c.proxies@, e, out.proxies@)
    &&& visitors_expanded(c.visitors@, e, out.visitors@)
    &&& list_expanded(c.includes, e, out.includes)
    &&& out.server_port == c.server_port
    &&& out.work_conn_port == c.work_conn_port
}

fn expand_text(c: &String, env: &NameMap<String>, limit: usize) -> (r: Option<String>)
    ensures
        r is Some == text_expands(*c, expansion_of(*env, limit)),
        r matches Some(out) ==> text_expanded(*c, expansion_of(*env, limit), out),
{
    ConfigLoader::replace_env_vars(c.as_str(), env, limit)
}

fn expand_optional(c: &Option<String>, env: &NameMap<String>, limit: usize) -> (r: Option<
    Option<String>,
>)
    ensures
        r is Some == optional_expands(*c, expansion_of(*env, limit)),
        r matches Some(out) ==> optional_expanded(*c, expansion_of(*env, limit), out),
{
    match c {
        Some(t) => Some(Some(expand_text(t, env, limit)?)),
        None => Some(None),
    }
}

fn expand_list(c: &Option<Vec<String>>, env: &NameMap<String>, limit: usize) -> (r: Option<
    Option<Vec<String>>,
>)
    ensures
        r is Some == list_expands(*c, expansion_of(*env, limit)),
        r matches Some(out) ==> list_expanded(*c, expansion_of(*env, limit), out),
{
    match c {
        Some(l) => {
            let mut done: Vec<String> = Vec::new();
            let mut i: usize = 0;
            while i < l.len()
                invariant
                    *c == Some(*l),
                    i <= l.len(),
                    done.len() == i,
                    forall|k: int|
                        0 <= k < i ==> text_expanded(
                            #[trigger] l@[k],
                            expansion_of(*env, limit),
                            done@[k],
                        ),
                decreases l.len() - i,
            {
                match expand_text(&l[i], env, limit) {
                    Some(t) => {
                        done.push(t);
                    },
                    None => {
                        let ghost left = c->0@[i as int];
                        assert(left == l@[i as int]);
                        assert(!text_expands(left, expansion_of(*env, limit)));
                        return None;
                    },
                }
                i = i + 1;
            }
            Some(Some(done))
        },
        None => Some(None),
    }
}

fn copy_ranges(ranges: &Vec<PortRange>) -> (r: Vec<PortRange>)
    ensures
        r@ == ranges@,
{
    let mut r: Vec<PortRange> = Vec::new();
    let mut i: usize = 0;
    while i < ranges.len()
        invariant
            i <= ranges.len(),
            r@ == ranges@.take(i as int),
        decreases ranges.len() - i,
    {
        r.push(ranges[i]);
        i = i + 1;
    }
    assert(r@ == ranges@);
    r
}

fn expand_web_server(
    c: &WebServerConfig,
    env: &NameMap<String>,
    limit: usize,
) -> (r: Option<WebServerConfig>)
    ensures
        r is Some == web_server_expands(*c, expansion_of(*env, limit)),
        r matches Some(out) ==> web_server_expanded(*c, expansion_of(*env, limit), out),
{
    Some(
        WebServerConfig {
            addr: expand_text(&c.addr, env, limit)?,
            port: c.port,
            user: expand_optional(&c.user, env, limit)?,
            password: expand_optional(&c.password, env, limit)?,
        },
    )
}

fn expand_oidc(c: &OidcConfig, env: &NameMap<String>, limit: usize) -> (r: Option<OidcConfig>)
    ensures
        r is Some == oidc_expands(*c, expansion_of(*env, limit)),
        r matches Some(out) ==> oidc_expanded(*c, expansion_of(*env, limit), out),
{
    Some(
        OidcConfig {
            issuer: expand_text(&c.issuer, env, limit)?,
            audience: expand_text(&c.audience, env, limit)?,
            client_id: expand_text(&c.client_id, env, limit)?,
            client_secret: expand_text(&c.client_secret, env, limit)?,
            token_endpoint_url: expand_text(&c.token_endpoint_url, env, limit)?,
        },
    )
}

fn expand_optional_oidc(c: &Option<OidcConfig>, env: &NameMap<String>, limit: usize) -> (r: Option<
    Option<OidcConfig>,
>)
    ensures
        r is Some == optional_oidc_expands(*c, expansion_of(*env, limit)),
        r matches Some(out) ==> optional_oidc_expanded(*c, expansion_of(*env, limit), out),
{
    match c {
        Some(x) => Some(Some(expand_oidc(x, env, limit)?)),
        None => Some(None),
    }
}

fn expand_auth(c: &AuthConfig, env: &NameMap<String>, limit: usize) -> (r: Option<AuthConfig>)
    ensures
        r is Some == auth_expands(*c, expansion_of(*env, limit)),
        r matches Some(out) ==> auth_expanded(*c, expansion_of(*env, limit), out),
{
    Some(
        AuthConfig {
            method: expand_text(&c.method, env, limit)?,
            token: expand_optional(&c.token, env, limit)?,
            oidc: expand_optional_oidc(&c.oidc, env, limit)?,
        },
    )
}

fn expand_tls(c: &TlsConfig, env: &NameMap<String>, limit: usize) -> (r: Option<TlsConfig>)
    ensures
        r is Some == tls_expands(*c, expansion_of(*env, limit)),
        r matches Some(out) ==> tls_expanded(*c, expansion_of(*env, limit), out),
{
    Some(
        TlsConfig {
            enable: c.enable,
            cert_file: expand_optional(&c.cert_file, env, limit)?,
            key_file: expand_optional(&c.key_file, env, limit)?,
            trusted_ca_file: expand_optional(&c.trusted_ca_file, env, limit)?,
            skip_verify: c.skip_verify,
            force: c.force,
        },
    )
}

fn expand_optional_tls(c: &Option<TlsConfig>, env: &NameMap<String>, limit: usize) -> (r: Option<
    Option<TlsConfig>,
>)
    ensures
        r is Some == optional_tls_expands(*c, expansion_of(*env, limit)),
        r matches Some(out) ==> optional_tls_expanded(*c, expansion_of(*env, limit), out),
{
    match c {
        Some(x) => Some(Some(expand_tls(x, env, limit)?)),
        None => Some(None),
    }
}

fn expand_transport(
    c: &TransportConfig,
    env: &NameMap<String>,
    limit: usize,
) -> (r: Option<TransportConfig>)
    ensures
        r is Some == transport_expands(*c, expansion_of(*env, limit)),
        r matches Some(out) ==> transport_expanded(*c, expansion_of(*env, limit), out),
{
    Some(
        TransportConfig {
            protocol: expand_text(&c.protocol, env, limit)?,
            tls: expand_optional_tls(&c.tls, env, limit)?,
            tcp_mux: c.tcp_mux,
            tls_only: c.tls_only,
            pool_count: c.pool_count,
            bandwidth_limit: expand_optional(&c.bandwidth_limit, env, limit)?,
        },
    )
}

fn expand_optional_transport(
    c: &Option<TransportConfig>,
    env: &NameMap<String>,
    limit: usize,
) -> (r: Option<
    Option<TransportConfig>,
>)
    ensures
        r is Some == optional_transport_expands(*c, expansion_of(*env, limit)),
        r matches Some(out) ==> optional_transport_expanded(*c, expansion_of(*env, limit), out),
{
    match c {
        Some(x) => Some(Some(expand_transport(x, env, limit)?)),
        None => Some(None),
    }
}

fn expand_health(
    c: &HealthCheckConfig,
    env: &NameMap<String>,
    limit: usize,
) -> (r: Option<HealthCheckConfig>)
    ensures
        r is Some == health_expands(*c, expansion_of(*env, limit)),
        r matches Some(out) ==> health_expanded(*c, expansion_of(*env, limit), out),
{
    Some(
        HealthCheckConfig {
            kind: expand_text(&c.kind, env, limit)?,
            timeout_seconds: c.timeout_seconds,
            max_failed: c.max_failed,
            interval_seconds: c.interval_seconds,
            path: expand_optional(&c.path, env, limit)?,
        },
    )
}

fn expand_optional_health(
    c: &Option<HealthCheckConfig>,
    env: &NameMap<String>,
    limit: usize,
) -> (r: Option<
    Option<HealthCheckConfig>,
>)
    ensures
        r is Some == optional_health_expands(*c, expansion_of(*env, limit)),
        r matches Some(out) ==> optional_health_expanded(*c, expansion_of(*env, limit), out),
{
    match c {
        Some(x) => Some(Some(expand_health(x, env, limit)?)),
        None => Some(None),
    }
}

fn expand_plugin(c: &PluginConfig, env: &NameMap<String>, limit: usize) -> (r: Option<PluginConfig>)
    ensures
        r is Some == plugin_expands(*c, expansion_of(*env, limit)),
        r matches Some(out) ==> plugin_expanded(*c, expansion_of(*env, limit), out),
{
    Some(
        PluginConfig {
            kind: expand_text(&c.kind, env, limit)?,
            unix_path: expand_optional(&c.unix_path, env, limit)?,
            local_path: expand_optional(&c.local_path, env, limit)?,
            strip_prefix: expand_optional(&c.strip_prefix, env, limit)?,
            http_user: expand_optional(&c.http_user, env, limit)?,
            http_password: expand_optional(&c.http_password, env, limit)?,
            local_addr: expand_optional(&c.local_addr, env, limit)?,
            crt_path: expand_optional(&c.crt_path, env, limit)?,
            key_path: expand_optional(&c.key_path, env, limit)?,
        },
    )
}

fn expand_optional_plugin(
    c: &Option<PluginConfig>,
    env: &NameMap<String>,
    limit: usize,
) -> (r: Option<
    Option<PluginConfig>,
>)
    ensures
        r is Some == optional_plugin_expands(*c, expansion_of(*env, limit)),
        r matches Some(out) ==> optional_plugin_expanded(*c, expansion_of(*env, limit), out),
{
    match c {
        Some(x) => Some(Some(expand_plugin(x, env, limit)?)),
        None => Some(None),
    }
}

fn expand_proxy(c: &ProxyConfig, env: &NameMap<String>, limit: usize) -> (r: Option<ProxyConfig>)
    ensures
        r is Some == proxy_expands(*c, expansion_of(*env, limit)),
        r matches Some(out) ==> proxy_expanded(*c, expansion_of(*env, limit), out),
{
    Some(
        ProxyConfig {
            name: expand_text(&c.name, env, limit)?,
            kind: expand_text(&c.kind, env, limit)?,
            local_ip: expand_text(&c.local_ip, env, limit)?,
            local_port: c.local_port,
            remote_port: c.remote_port,
            custom_domains: expand_list(&c.custom_domains, env, limit)?,
            subdomain: expand_optional(&c.subdomain, env, limit)?,
            locations: expand_list(&c.locations, env, limit)?,
            host_header_rewrite: expand_optional(&c.host_header_rewrite, env, limit)?,
            http_user: expand_optional(&c.http_user, env, limit)?,
            http_password: expand_optional(&c.http_password, env, limit)?,
            health_check: expand_optional_health(&c.health_check, env, limit)?,
            bandwidth_limit: expand_optional(&c.bandwidth_limit, env, limit)?,
            secret_key: expand_optional(&c.secret_key, env, limit)?,
            transport: expand_optional_transport(&c.transport, env, limit)?,
            plugin: expand_optional_plugin(&c.plugin, env, limit)?,
            proxy_protocol: c.proxy_protocol,
            group: expand_optional(&c.group, env, limit)?,
            group_key: expand_optional(&c.group_key, env, limit)?,
        },
    )
}

fn expand_proxies(c: &Vec<ProxyConfig>, env: &NameMap<String>, limit: usize) -> (r: Option<
    Vec<ProxyConfig>,
>)
    ensures
        r is Some == proxies_expands(c@, expansion_of(*env, limit)),
        r matches Some(out) ==> proxies_expanded(c@, expansion_of(*env, limit), out@),
{
    let mut done: Vec<ProxyConfig> = Vec::new();
    let mut i: usize = 0;
    while i < c.len()
        invariant
            i <= c.len(),
            done.len() == i,
            forall|k: int|
                0 <= k < i ==> proxy_expanded(
                    #[trigger] c@[k],
                    expansion_of(*env, limit),
                    done@[k],
                ),
            forall|k: int|
                0 <= k < i ==> proxy_expands(#[trigger] c@[k], expansion_of(*env, limit)),
        decreases c.len() - i,
    {
        match expand_proxy(&c[i], env, limit) {
            Some(x) => {
                done.push(x);
            },
            None => {
                assert(!proxy_expands(c@[i as int], expansion_of(*env, limit)));
                return None;
            },
        }
        i = i + 1;
    }
    Some(done)
}

fn expand_visitor(
    c: &VisitorConfig,
    env: &NameMap<String>,
    limit: usize,
) -> (r: Option<VisitorConfig>)
    ensures
        r is Some == visitor_expands(*c, expansion_of(*env, limit)),
        r matches Some(out) ==> visitor_expanded(*c, expansion_of(*env, limit), out),
{
    Some(
        VisitorConfig {
            name: expand_text(&c.name, env, limit)?,
            kind: expand_text(&c.kind, env, limit)?,
            server_name: expand_text(&c.server_name, env, limit)?,
            secret_key: expand_optional(&c.secret_key, env, limit)?,
            bind_addr: expand_text(&c.bind_addr, env, limit)?,
            bind_port: c.bind_port,
            transport: expand_optional_transport(&c.transport, env, limit)?,
        },
    )
}

fn expand_visitors(c: &Vec<VisitorConfig>, env: &NameMap<String>, limit: usize) -> (r: Option<
    Vec<VisitorConfig>,
>)
    ensures
        r is Some == visitors_expands(c@, expansion_of(*env, limit)),
        r matches Some(out) ==> visitors_expanded(c@, expansion_of(*env, limit), out@),
{
    let mut done: Vec<VisitorConfig> = Vec::new();
    let mut i: usize = 0;
    while i < c.len()
        invariant
            i <= c.len(),
            done.len() == i,
            forall|k: int|
                0 <= k < i ==> visitor_expanded(
                    #[trigger] c@[k],
                    expansion_of(*env, limit),
                    done@[k],
                ),
            forall|k: int|
                0 <= k < i ==> visitor_expands(#[trigger] c@[k], expansion_of(*env, limit)),
        decreases c.len() - i,
    {
        match expand_visitor(&c[i], env, limit) {
            Some(x) => {
                done.push(x);
            },
            None => {
                assert(!visitor_expands(c@[i as int], expansion_of(*env, limit)));
                return None;
            },
        }
        i = i + 1;
    }
    Some(done)
}

/// The settings of a server, with all references replaced; nothing where the expansion of
/// a text does not end.
pub fn expand_server(
    c: &ServerConfig,
    env: &NameMap<String>,
    limit: usize,
) -> (r: Option<ServerConfig>)
    ensures
        r is Some == server_expands(*c, expansion_of(*env, limit)),
        r matches Some(out) ==> server_expanded(*c, expansion_of(*env, limit), out),
{
    Some(
        ServerConfig {
            bind_addr: expand_text(&c.bind_addr, env, limit)?,
            bind_port: c.bind_port,
            kcp_bind_port: c.kcp_bind_port,
            quic_bind_port: c.quic_bind_port,
            vhost_http_port: c.vhost_http_port,
            vhost_https_port: c.vhost_https_port,
            tcpmux_http_connect_port: c.tcpmux_http_connect_port,
            work_conn_port: c.work_conn_port,
            web_server: expand_web_server(&c.web_server, env, limit)?,
            auth: expand_auth(&c.auth, env, limit)?,
            transport: expand_transport(&c.transport, env, limit)?,
            allow_ports: copy_ranges(&c.allow_ports),
            max_ports_per_user: c.max_ports_per_user,
            custom_404_page: expand_optional(&c.custom_404_page, env, limit)?,
            includes: expand_list(&c.includes, env, limit)?,
            proxies: expand_proxies(&c.proxies, env, limit)?,
        },
    )
}

/// The settings of a client, with all references replaced; nothing where the expansion of
/// a text does not end.
pub fn expand_client(
    c: &ClientConfig,
    env: &NameMap<String>,
    limit: usize,
) -> (r: Option<ClientConfig>)
    ensures
        r is Some == client_expands(*c, expansion_of(*env, limit)),
        r matches Some(out) ==> client_expanded(*c, expansion_of(*env, limit), out),
{
    Some(
        ClientConfig {
            server_addr: expand_text(&c.server_addr, env, limit)?,
            server_port: c.server_port,
            work_conn_port: c.work_conn_port,
            user: expand_optional(&c.user, env, limit)?,
            client_id: expand_optional(&c.client_id, env, limit)?,
            web_server: expand_web_server(&c.web_server, env, limit)?,
            auth: expand_auth(&c.auth, env, limit)?,
            transport: expand_transport(&c.transport, env, limit)?,
            proxies: expand_proxies(&c.proxies, env, limit)?,
            visitors: expand_visitors(&c.visitors, env, limit)?,
            includes: expand_list(&c.includes, env, limit)?,
        },
    )
}

impl ConfigLoader {
    /// Replaces `${NAME}` by the value of the variable, again and again, up to
    /// `limit` times; `None` where references are left after that.
    pub fn replace_env_vars(s: &str, env: &NameMap<String>, limit: usize) -> (r: Option<String>)
        ensures
            match expanded(s@, text_values(env@), limit as nat) {
                Some(t) => r is Some && r->0@ == t,
                None => r is None,
            },
    {
        let mut text: String = s.to_string();
        let mut left: usize = limit;
        loop
            invariant
                expanded(s@, text_values(env@), limit as nat) == expanded(
                    text@,
                    text_values(env@),
                    left as nat,
                ),
            decreases left,
        {
            let chars: Vec<char> = chars_of(text.as_str());
            let i: usize = find_ref_start(&chars);
            if i == chars.len() {
                return Some(text);
            }
            let end: usize = find_from(&chars, '}', i + 2);
            if end == chars.len() {
                return Some(text);
            }
            if left == 0 {
                return None;
            }
            let name: String = string_of(&chars, i + 2, end);
            let mut next: String = string_of(&chars, 0, i);
            if let Some(v) = env.get(name.as_str()) {
                next.append(v.as_str());
            }
            let tail: String = string_of(&chars, end + 1, chars.len());
            next.append(tail.as_str());
            proof {
                let n = ref_name_len(text@) as int;
                assert(n == end - i - 2);
                assert(text@.subrange(0, i as int) == text@.take(i as int));
                assert(text@.subrange(end + 1, chars@.len() as int) == text@.skip(i + 3 + n));
                assert(next@ == env_step(text@, text_values(env@)));
            }
            text = next;
            left = left - 1;
        }
    }

    /// Replaces the references in every text of a server's settings. Where the
    /// expansion of one of them does not end within `limit` replacements, nothing is
    /// changed.
    pub fn replace_environment_variables(
        config: &mut ServerConfig,
        env: &NameMap<String>,
        limit: usize,
    ) -> (r: bool)
        ensures
            r == server_expands(*old(config), expansion_of(*env, limit)),
            !r ==> *final(config) == *old(config),
            r ==> server_expanded(*old(config), expansion_of(*env, limit), *final(config)),
    {
        match expand_server(config, env, limit) {
            None => false,
            Some(done) => {
                *config = done;
                true
            },
        }
    }

    /// The same for a client.
    pub fn replace_environment_variables_client(
        config: &mut ClientConfig,
        env: &NameMap<String>,
        limit: usize,
    ) -> (r: bool)
        ensures
            r == client_expands(*old(config), expansion_of(*env, limit)),
            !r ==> *final(config) == *old(config),
            r ==> client_expanded(*old(config), expansion_of(*env, limit), *final(config)),
    {
        match expand_client(config, env, limit) {
            None => false,
            Some(done) => {
                *config = done;
                true
            },
        }
    }
}

} // verus!
