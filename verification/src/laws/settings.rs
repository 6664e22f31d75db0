//! Settings: what is merged, what is read from the environment and what is refused.
use crate::client::ClientError;
use crate::config::{
    merge_all, text_values, AuthConfig, ClientConfig, ConfigLoader, ConfigProblem,
    HealthCheckConfig, Merge, OidcConfig, PluginConfig, ProxyConfig, ServerConfig, TlsConfig,
    TransportConfig, VisitorConfig, WebServerConfig,
};
use crate::environment::{
    env_step, expand_client, expand_server, expansion_of, has_ref, optional_expanded, ref_start,
    text_expanded,
};
use crate::link::Client;
use crate::names::NameMap;
use crate::server::{Server, ServerError};
use crate::text::lemma_find;
use vstd::prelude::*;
use vstd::string::*;

verus! {

/// `b` is what replacing the references in `a` gives.
pub open spec fn taken(env: NameMap<String>, limit: usize, a: String, b: String) -> bool {
    forall|s: &str, r: Option<String>| #[trigger]
        call_ensures(ConfigLoader::replace_env_vars, (s, &env, limit), r) && s@ == a@ ==> r is Some
            && r->0@ == b@
}

/// The same, where it is given.
pub open spec fn taken_if_given(
    env: NameMap<String>,
    limit: usize,
    a: Option<String>,
    b: Option<String>,
) -> bool {
    &&& a is Some == b is Some
    &&& a is Some ==> taken(env, limit, a->0, b->0)
}

/// The same for each of a list.
pub open spec fn taken_each(
    env: NameMap<String>,
    limit: usize,
    a: Option<Vec<String>>,
    b: Option<Vec<String>>,
) -> bool {
    &&& a is Some == b is Some
    &&& a is Some ==> a->0@.len() == b->0@.len() && forall|i: int|
        #![trigger a->0@[i]]
        0 <= i < a->0@.len() ==> taken(env, limit, a->0@[i], b->0@[i])
}

/// The same for every text of a provider.
pub open spec fn oidc_taken(env: NameMap<String>, limit: usize, a: OidcConfig, b: OidcConfig) -> bool {
    &&& taken(env, limit, a.issuer, b.issuer)
    &&& taken(env, limit, a.audience, b.audience)
    &&& taken(env, limit, a.client_id, b.client_id)
    &&& taken(env, limit, a.client_secret, b.client_secret)
    &&& taken(env, limit, a.token_endpoint_url, b.token_endpoint_url)
}

/// The same, where it is given.
pub open spec fn oidc_taken_if_given(
    env: NameMap<String>,
    limit: usize,
    a: Option<OidcConfig>,
    b: Option<OidcConfig>,
) -> bool {
    &&& a is Some == b is Some
    &&& a is Some ==> oidc_taken(env, limit, a->0, b->0)
}

/// The same for every text of how clients prove who they are.
pub open spec fn auth_taken(env: NameMap<String>, limit: usize, a: AuthConfig, b: AuthConfig) -> bool {
    &&& taken(env, limit, a.method, b.method)
    &&& taken_if_given(env, limit, a.token, b.token)
    &&& oidc_taken_if_given(env, limit, a.oidc, b.oidc)
}

/// The same for every text of a web server, whose port stays.
pub open spec fn web_taken(env: NameMap<String>, limit: usize, a: WebServerConfig, b: WebServerConfig) -> bool {
    &&& taken(env, limit, a.addr, b.addr)
    &&& taken_if_given(env, limit, a.user, b.user)
    &&& taken_if_given(env, limit, a.password, b.password)
    &&& b.port == a.port
}

/// The same for every text of how connections are encrypted; the rest stays.
pub open spec fn tls_taken(env: NameMap<String>, limit: usize, a: TlsConfig, b: TlsConfig) -> bool {
    &&& taken_if_given(env, limit, a.cert_file, b.cert_file)
    &&& taken_if_given(env, limit, a.key_file, b.key_file)
    &&& taken_if_given(env, limit, a.trusted_ca_file, b.trusted_ca_file)
    &&& b.enable == a.enable
    &&& b.skip_verify == a.skip_verify
    &&& b.force == a.force
}

/// The same, where it is given.
pub open spec fn tls_taken_if_given(
    env: NameMap<String>,
    limit: usize,
    a: Option<TlsConfig>,
    b: Option<TlsConfig>,
) -> bool {
    &&& a is Some == b is Some
    &&& a is Some ==> tls_taken(env, limit, a->0, b->0)
}

/// The same for every text of how two ends reach each other; the rest stays.
pub open spec fn transport_taken(env: NameMap<String>, limit: usize, a: TransportConfig, b: TransportConfig) -> bool {
    &&& taken(env, limit, a.protocol, b.protocol)
    &&& taken_if_given(env, limit, a.bandwidth_limit, b.bandwidth_limit)
    &&& tls_taken_if_given(env, limit, a.tls, b.tls)
    &&& b.tcp_mux == a.tcp_mux
    &&& b.tls_only == a.tls_only
    &&& b.pool_count == a.pool_count
}

/// The same, where it is given.
pub open spec fn transport_taken_if_given(
    env: NameMap<String>,
    limit: usize,
    a: Option<TransportConfig>,
    b: Option<TransportConfig>,
) -> bool {
    &&& a is Some == b is Some
    &&& a is Some ==> transport_taken(env, limit, a->0, b->0)
}

/// The same for every text of a probe; its numbers stay.
pub open spec fn health_taken(env: NameMap<String>, limit: usize, a: HealthCheckConfig, b: HealthCheckConfig) -> bool {
    &&& taken(env, limit, a.kind, b.kind)
    &&& taken_if_given(env, limit, a.path, b.path)
    &&& b.timeout_seconds == a.timeout_seconds
    &&& b.max_failed == a.max_failed
    &&& b.interval_seconds == a.interval_seconds
}

/// The same, where it is given.
pub open spec fn health_taken_if_given(
    env: NameMap<String>,
    limit: usize,
    a: Option<HealthCheckConfig>,
    b: Option<HealthCheckConfig>,
) -> bool {
    &&& a is Some == b is Some
    &&& a is Some ==> health_taken(env, limit, a->0, b->0)
}

/// The same for every text of a plugin.
pub open spec fn plugin_taken(env: NameMap<String>, limit: usize, a: PluginConfig, b: PluginConfig) -> bool {
    &&& taken(env, limit, a.kind, b.kind)
    &&& taken_if_given(env, limit, a.unix_path, b.unix_path)
    &&& taken_if_given(env, limit, a.local_path, b.local_path)
    &&& taken_if_given(env, limit, a.strip_prefix, b.strip_prefix)
    &&& taken_if_given(env, limit, a.http_user, b.http_user)
    &&& taken_if_given(env, limit, a.http_password, b.http_password)
    &&& taken_if_given(env, limit, a.local_addr, b.local_addr)
    &&& taken_if_given(env, limit, a.crt_path, b.crt_path)
    &&& taken_if_given(env, limit, a.key_path, b.key_path)
}

/// The same, where it is given.
pub open spec fn plugin_taken_if_given(
    env: NameMap<String>,
    limit: usize,
    a: Option<PluginConfig>,
    b: Option<PluginConfig>,
) -> bool {
    &&& a is Some == b is Some
    &&& a is Some ==> plugin_taken(env, limit, a->0, b->0)
}

/// The same for every text of a proxy; its ports stay.
pub open spec fn proxy_taken(env: NameMap<String>, limit: usize, a: ProxyConfig, b: ProxyConfig) -> bool {
    &&& taken(env, limit, a.name, b.name)
    &&& taken(env, limit, a.kind, b.kind)
    &&& taken(env, limit, a.local_ip, b.local_ip)
    &&& taken_if_given(env, limit, a.subdomain, b.subdomain)
    &&& taken_if_given(env, limit, a.host_header_rewrite, b.host_header_rewrite)
    &&& taken_if_given(env, limit, a.http_user, b.http_user)
    &&& taken_if_given(env, limit, a.http_password, b.http_password)
    &&& taken_if_given(env, limit, a.bandwidth_limit, b.bandwidth_limit)
    &&& taken_if_given(env, limit, a.secret_key, b.secret_key)
    &&& taken_if_given(env, limit, a.group, b.group)
    &&& taken_if_given(env, limit, a.group_key, b.group_key)
    &&& taken_each(env, limit, a.custom_domains, b.custom_domains)
    &&& taken_each(env, limit, a.locations, b.locations)
    &&& health_taken_if_given(env, limit, a.health_check, b.health_check)
    &&& transport_taken_if_given(env, limit, a.transport, b.transport)
    &&& plugin_taken_if_given(env, limit, a.plugin, b.plugin)
    &&& b.local_port == a.local_port
    &&& b.remote_port == a.remote_port
    &&& b.proxy_protocol == a.proxy_protocol
}

/// The same for every text of a visitor, whose port stays.
pub open spec fn visitor_taken(env: NameMap<String>, limit: usize, a: VisitorConfig, b: VisitorConfig) -> bool {
    &&& taken(env, limit, a.name, b.name)
    &&& taken(env, limit, a.kind, b.kind)
    &&& taken(env, limit, a.server_name, b.server_name)
    &&& taken(env, limit, a.bind_addr, b.bind_addr)
    &&& taken_if_given(env, limit, a.secret_key, b.secret_key)
    &&& transport_taken_if_given(env, limit, a.transport, b.transport)
    &&& b.bind_port == a.bind_port
}

proof fn lemma_text(env: NameMap<String>, limit: usize, a: String, b: String)
    requires
        text_expanded(a, expansion_of(env, limit), b),
    ensures
        taken(env, limit, a, b),
{
}

proof fn lemma_optional(
    env: NameMap<String>,
    limit: usize,
    a: Option<String>,
    b: Option<String>,
)
    requires
        optional_expanded(a, expansion_of(env, limit), b),
    ensures
        taken_if_given(env, limit, a, b),
{
    if a is Some {
        lemma_text(env, limit, a->0, b->0);
    }
}

proof fn lemma_list(
    env: NameMap<String>,
    limit: usize,
    a: Option<Vec<String>>,
    b: Option<Vec<String>>,
)
    requires
        crate::environment::list_expanded(a, expansion_of(env, limit), b),
    ensures
        taken_each(env, limit, a, b),
{
    if a is Some {
        assert forall|i: int|
            #![trigger a->0@[i]]
            0 <= i < a->0@.len() implies taken(env, limit, a->0@[i], b->0@[i]) by {
            lemma_text(env, limit, a->0@[i], b->0@[i]);
        }
    }
}

proof fn lemma_oidc(env: NameMap<String>, limit: usize, a: OidcConfig, b: OidcConfig)
    requires
        crate::environment::oidc_expanded(a, expansion_of(env, limit), b),
    ensures
        oidc_taken(env, limit, a, b),
{
    lemma_text(env, limit, a.issuer, b.issuer);
    lemma_text(env, limit, a.audience, b.audience);
    lemma_text(env, limit, a.client_id, b.client_id);
    lemma_text(env, limit, a.client_secret, b.client_secret);
    lemma_text(env, limit, a.token_endpoint_url, b.token_endpoint_url);
}

proof fn lemma_auth(env: NameMap<String>, limit: usize, a: AuthConfig, b: AuthConfig)
    requires
        crate::environment::auth_expanded(a, expansion_of(env, limit), b),
    ensures
        auth_taken(env, limit, a, b),
{
    lemma_text(env, limit, a.method, b.method);
    lemma_optional(env, limit, a.token, b.token);
    if a.oidc is Some {
        lemma_oidc(env, limit, a.oidc->0, b.oidc->0);
    }
}

proof fn lemma_web(env: NameMap<String>, limit: usize, a: WebServerConfig, b: WebServerConfig)
    requires
        crate::environment::web_server_expanded(a, expansion_of(env, limit), b),
    ensures
        web_taken(env, limit, a, b),
{
    lemma_text(env, limit, a.addr, b.addr);
    lemma_optional(env, limit, a.user, b.user);
    lemma_optional(env, limit, a.password, b.password);
}

proof fn lemma_tls(env: NameMap<String>, limit: usize, a: TlsConfig, b: TlsConfig)
    requires
        crate::environment::tls_expanded(a, expansion_of(env, limit), b),
    ensures
        tls_taken(env, limit, a, b),
{
    lemma_optional(env, limit, a.cert_file, b.cert_file);
    lemma_optional(env, limit, a.key_file, b.key_file);
    lemma_optional(env, limit, a.trusted_ca_file, b.trusted_ca_file);
}

proof fn lemma_transport(env: NameMap<String>, limit: usize, a: TransportConfig, b: TransportConfig)
    requires
        crate::environment::transport_expanded(a, expansion_of(env, limit), b),
    ensures
        transport_taken(env, limit, a, b),
{
    lemma_text(env, limit, a.protocol, b.protocol);
    lemma_optional(env, limit, a.bandwidth_limit, b.bandwidth_limit);
    if a.tls is Some {
        lemma_tls(env, limit, a.tls->0, b.tls->0);
    }
}

proof fn lemma_health(env: NameMap<String>, limit: usize, a: HealthCheckConfig, b: HealthCheckConfig)
    requires
        crate::environment::health_expanded(a, expansion_of(env, limit), b),
    ensures
        health_taken(env, limit, a, b),
{
    lemma_text(env, limit, a.kind, b.kind);
    lemma_optional(env, limit, a.path, b.path);
}

proof fn lemma_plugin(env: NameMap<String>, limit: usize, a: PluginConfig, b: PluginConfig)
    requires
        crate::environment::plugin_expanded(a, expansion_of(env, limit), b),
    ensures
        plugin_taken(env, limit, a, b),
{
    lemma_text(env, limit, a.kind, b.kind);
    lemma_optional(env, limit, a.unix_path, b.unix_path);
    lemma_optional(env, limit, a.local_path, b.local_path);
    lemma_optional(env, limit, a.strip_prefix, b.strip_prefix);
    lemma_optional(env, limit, a.http_user, b.http_user);
    lemma_optional(env, limit, a.http_password, b.http_password);
    lemma_optional(env, limit, a.local_addr, b.local_addr);
    lemma_optional(env, limit, a.crt_path, b.crt_path);
    lemma_optional(env, limit, a.key_path, b.key_path);
}

proof fn lemma_proxy(env: NameMap<String>, limit: usize, a: ProxyConfig, b: ProxyConfig)
    requires
        crate::environment::proxy_expanded(a, expansion_of(env, limit), b),
    ensures
        proxy_taken(env, limit, a, b),
{
    lemma_text(env, limit, a.name, b.name);
    lemma_text(env, limit, a.kind, b.kind);
    lemma_text(env, limit, a.local_ip, b.local_ip);
    lemma_optional(env, limit, a.subdomain, b.subdomain);
    lemma_optional(env, limit, a.host_header_rewrite, b.host_header_rewrite);
    lemma_optional(env, limit, a.http_user, b.http_user);
    lemma_optional(env, limit, a.http_password, b.http_password);
    lemma_optional(env, limit, a.bandwidth_limit, b.bandwidth_limit);
    lemma_optional(env, limit, a.secret_key, b.secret_key);
    lemma_optional(env, limit, a.group, b.group);
    lemma_optional(env, limit, a.group_key, b.group_key);
    lemma_list(env, limit, a.custom_domains, b.custom_domains);
    lemma_list(env, limit, a.locations, b.locations);
    if a.health_check is Some {
        lemma_health(env, limit, a.health_check->0, b.health_check->0);
    }
    if a.transport is Some {
        lemma_transport(env, limit, a.transport->0, b.transport->0);
    }
    if a.plugin is Some {
        lemma_plugin(env, limit, a.plugin->0, b.plugin->0);
    }
}

proof fn lemma_visitor(env: NameMap<String>, limit: usize, a: VisitorConfig, b: VisitorConfig)
    requires
        crate::environment::visitor_expanded(a, expansion_of(env, limit), b),
    ensures
        visitor_taken(env, limit, a, b),
{
    lemma_text(env, limit, a.name, b.name);
    lemma_text(env, limit, a.kind, b.kind);
    lemma_text(env, limit, a.server_name, b.server_name);
    lemma_text(env, limit, a.bind_addr, b.bind_addr);
    lemma_optional(env, limit, a.secret_key, b.secret_key);
    if a.transport is Some {
        lemma_transport(env, limit, a.transport->0, b.transport->0);
    }
}

/// References are replaced in every text of a server's settings, each by itself, and
/// nothing else is changed.
pub proof fn law_server_settings_are_expanded(
    config: &mut ServerConfig,
    env: NameMap<String>,
    limit: usize,
)
    requires
        call_ensures(
            ConfigLoader::replace_environment_variables,
            (config, &env, limit),
            true,
        ),
    ensures
        taken(env, limit, old(config).bind_addr, final(config).bind_addr),
        web_taken(env, limit, old(config).web_server, final(config).web_server),
        auth_taken(env, limit, old(config).auth, final(config).auth),
        transport_taken(env, limit, old(config).transport, final(config).transport),
        taken_if_given(env, limit, old(config).custom_404_page, final(config).custom_404_page),
        taken_each(env, limit, old(config).includes, final(config).includes),
        final(config).proxies@.len() == old(config).proxies@.len(),
        forall|i: int|
            #![trigger old(config).proxies@[i]]
            0 <= i < old(config).proxies@.len() ==> proxy_taken(
                env,
                limit,
                old(config).proxies@[i],
                final(config).proxies@[i],
            ),
        final(config).bind_port == old(config).bind_port,
        final(config).kcp_bind_port == old(config).kcp_bind_port,
        final(config).quic_bind_port == old(config).quic_bind_port,
        final(config).vhost_http_port == old(config).vhost_http_port,
        final(config).vhost_https_port == old(config).vhost_https_port,
        final(config).tcpmux_http_connect_port == old(config).tcpmux_http_connect_port,
        final(config).work_conn_port == old(config).work_conn_port,
        final(config).allow_ports@ == old(config).allow_ports@,
        final(config).max_ports_per_user == old(config).max_ports_per_user,
{
    let a = *old(config);
    let b = *final(config);
    lemma_text(env, limit, a.bind_addr, b.bind_addr);
    lemma_web(env, limit, a.web_server, b.web_server);
    lemma_auth(env, limit, a.auth, b.auth);
    lemma_transport(env, limit, a.transport, b.transport);
    lemma_optional(env, limit, a.custom_404_page, b.custom_404_page);
    lemma_list(env, limit, a.includes, b.includes);
    assert forall|i: int|
        #![trigger a.proxies@[i]]
        0 <= i < a.proxies@.len() implies proxy_taken(env, limit, a.proxies@[i], b.proxies@[i]) by {
        lemma_proxy(env, limit, a.proxies@[i], b.proxies@[i]);
    }
}

/// So they are in every text of a client's settings.
pub proof fn law_client_settings_are_expanded(
    config: &mut ClientConfig,
    env: NameMap<String>,
    limit: usize,
)
    requires
        call_ensures(
            ConfigLoader::replace_environment_variables_client,
            (config, &env, limit),
            true,
        ),
    ensures
        taken(env, limit, old(config).server_addr, final(config).server_addr),
        taken_if_given(env, limit, old(config).user, final(config).user),
        taken_if_given(env, limit, old(config).client_id, final(config).client_id),
        web_taken(env, limit, old(config).web_server, final(config).web_server),
        auth_taken(env, limit, old(config).auth, final(config).auth),
        transport_taken(env, limit, old(config).transport, final(config).transport),
        taken_each(env, limit, old(config).includes, final(config).includes),
        final(config).proxies@.len() == old(config).proxies@.len(),
        forall|i: int|
            #![trigger old(config).proxies@[i]]
            0 <= i < old(config).proxies@.len() ==> proxy_taken(
                env,
                limit,
                old(config).proxies@[i],
                final(config).proxies@[i],
            ),
        final(config).visitors@.len() == old(config).visitors@.len(),
        forall|i: int|
            #![trigger old(config).visitors@[i]]
            0 <= i < old(config).visitors@.len() ==> visitor_taken(
                env,
                limit,
                old(config).visitors@[i],
                final(config).visitors@[i],
            ),
        final(config).server_port == old(config).server_port,
        final(config).work_conn_port == old(config).work_conn_port,
{
    let a = *old(config);
    let b = *final(config);
    lemma_text(env, limit, a.server_addr, b.server_addr);
    lemma_optional(env, limit, a.user, b.user);
    lemma_optional(env, limit, a.client_id, b.client_id);
    lemma_web(env, limit, a.web_server, b.web_server);
    lemma_auth(env, limit, a.auth, b.auth);
    lemma_transport(env, limit, a.transport, b.transport);
    lemma_list(env, limit, a.includes, b.includes);
    assert forall|i: int|
        #![trigger a.proxies@[i]]
        0 <= i < a.proxies@.len() implies proxy_taken(env, limit, a.proxies@[i], b.proxies@[i]) by {
        lemma_proxy(env, limit, a.proxies@[i], b.proxies@[i]);
    }
    assert forall|i: int|
        #![trigger a.visitors@[i]]
        0 <= i < a.visitors@.len() implies visitor_taken(
        env,
        limit,
        a.visitors@[i],
        b.visitors@[i],
    ) by {
        lemma_visitor(env, limit, a.visitors@[i], b.visitors@[i]);
    }
}

/// A reference stands for the value of its variable, and for nothing where the variable
/// is not set; what comes of that is read anew. The reference costs one of the
/// replacements that are allowed.
pub proof fn law_reference_stands_for_its_value(
    text: &str,
    before: Seq<char>,
    name: Seq<char>,
    after: Seq<char>,
    next: &str,
    env: NameMap<String>,
    limit: usize,
    whole: Option<String>,
    rest: Option<String>,
)
    requires
        text@ == before + seq!['$', '{'] + name + seq!['}'] + after,
        !before.contains('$'),
        !name.contains('}'),
        limit > 0,
        next@ == before + (if env@.contains_key(name) {
            env@[name]@
        } else {
            Seq::<char>::empty()
        }) + after,
        call_ensures(ConfigLoader::replace_env_vars, (text, &env, limit), whole),
        call_ensures(ConfigLoader::replace_env_vars, (next, &env, (limit - 1) as usize), rest),
    ensures
        whole is Some == rest is Some,
        whole is Some ==> whole->0@ == rest->0@,
{
    let s = text@;
    let i = before.len() as int;
    let n = name.len() as int;
    lemma_reference_at(s, i);
    let tail = s.skip(i + 2);
    assert forall|j: int| 0 <= j < n implies tail[j] != '}' by {
        assert(tail[j] == name[j]);
        assert(name.contains(name[j]));
    }
    assert(tail[n] == '}');
    lemma_find(tail, '}', n);
    assert(s.take(i) =~= before);
    assert(s.subrange(i + 2, i + 2 + n) =~= name);
    assert(s.skip(i + 3 + n) =~= after);
    assert(has_ref(s));
    assert(env_step(s, text_values(env@)) =~= next@);
}

proof fn lemma_reference_at(s: Seq<char>, i: int)
    requires
        0 <= i,
        i + 1 < s.len(),
        s[i] == '$',
        s[i + 1] == '{',
        forall|j: int| 0 <= j < i ==> s[j] != '$',
    ensures
        ref_start(s) == i,
    decreases s.len(),
{
    if i > 0 {
        assert(s[0] != '$');
        assert forall|j: int| 0 <= j < i - 1 implies s.drop_first()[j] != '$' by {
            assert(s[j + 1] != '$');
        }
        lemma_reference_at(s.drop_first(), i - 1);
    }
}

proof fn lemma_no_reference(s: Seq<char>)
    requires
        !s.contains('$'),
    ensures
        ref_start(s) == s.len(),
    decreases s.len(),
{
    if s.len() >= 2 {
        assert(s.contains(s[0]));
        if s.drop_first().contains('$') {
            let k = s.drop_first().index_of('$');
            assert(s[k + 1] == '$');
        }
        lemma_no_reference(s.drop_first());
    }
}

/// A text without a dollar sign is taken as it is, and a text with a reference is not
/// where no replacement is allowed.
pub proof fn law_texts_without_references_stay(
    text: &str,
    env: NameMap<String>,
    limit: usize,
    r: Option<String>,
)
    requires
        call_ensures(ConfigLoader::replace_env_vars, (text, &env, limit), r),
        !text@.contains('$'),
    ensures
        r is Some,
        r->0@ == text@,
{
    lemma_no_reference(text@);
}

/// The single values that a file gives take the place of those that were there, and the
/// others stay; its lists are added behind those that were there.
pub proof fn law_server_files_are_merged(target: &mut ServerConfig, source: ServerConfig)
    requires
        call_ensures(ConfigLoader::merge_server_config, (target, source), ()),
    ensures
        source.bind_addr@.len() > 0 ==> final(target).bind_addr@ == source.bind_addr@,
        source.bind_addr@.len() == 0 ==> final(target).bind_addr@ == old(target).bind_addr@,
        source.bind_port > 0 ==> final(target).bind_port == source.bind_port,
        source.bind_port == 0 ==> final(target).bind_port == old(target).bind_port,
        source.kcp_bind_port is Some ==> final(target).kcp_bind_port == source.kcp_bind_port,
        source.kcp_bind_port is None ==> final(target).kcp_bind_port == old(target).kcp_bind_port,
        source.quic_bind_port is Some ==> final(target).quic_bind_port == source.quic_bind_port,
        source.quic_bind_port is None ==> final(target).quic_bind_port == old(
            target).quic_bind_port,
        source.vhost_http_port is Some ==> final(target).vhost_http_port == source.vhost_http_port,
        source.vhost_http_port is None ==> final(target).vhost_http_port == old(
            target).vhost_http_port,
        source.vhost_https_port is Some ==> final(target).vhost_https_port
            == source.vhost_https_port,
        source.vhost_https_port is None ==> final(target).vhost_https_port == old(
            target).vhost_https_port,
        source.tcpmux_http_connect_port is Some ==> final(target).tcpmux_http_connect_port
            == source.tcpmux_http_connect_port,
        source.tcpmux_http_connect_port is None ==> final(target).tcpmux_http_connect_port == old(
            target).tcpmux_http_connect_port,
        source.work_conn_port is Some ==> final(target).work_conn_port == source.work_conn_port,
        source.work_conn_port is None ==> final(target).work_conn_port == old(
            target).work_conn_port,
        source.max_ports_per_user is Some ==> final(target).max_ports_per_user
            == source.max_ports_per_user,
        source.max_ports_per_user is None ==> final(target).max_ports_per_user == old(
            target).max_ports_per_user,
        source.custom_404_page is Some ==> final(target).custom_404_page == source.custom_404_page,
        source.custom_404_page is None ==> final(target).custom_404_page == old(
            target).custom_404_page,
        final(target).allow_ports@ == old(target).allow_ports@ + source.allow_ports@,
        final(target).proxies@ == old(target).proxies@ + source.proxies@,
        old(target).includes is Some && source.includes is Some ==> final(target).includes is Some
            && final(target).includes->0@ == old(target).includes->0@ + source.includes->0@,
        source.includes is None ==> final(target).includes == old(target).includes,
        final(target).auth == old(target).auth,
        final(target).transport == old(target).transport,
        final(target).web_server == old(target).web_server,
{
}

/// So they are for a client.
pub proof fn law_client_files_are_merged(target: &mut ClientConfig, source: ClientConfig)
    requires
        call_ensures(ConfigLoader::merge_client_config, (target, source), ()),
    ensures
        source.server_addr@.len() > 0 ==> final(target).server_addr@ == source.server_addr@,
        source.server_addr@.len() == 0 ==> final(target).server_addr@ == old(target).server_addr@,
        source.server_port > 0 ==> final(target).server_port == source.server_port,
        source.server_port == 0 ==> final(target).server_port == old(target).server_port,
        source.user is Some ==> final(target).user == source.user,
        source.user is None ==> final(target).user == old(target).user,
        source.client_id is Some ==> final(target).client_id == source.client_id,
        source.client_id is None ==> final(target).client_id == old(target).client_id,
        source.work_conn_port is Some ==> final(target).work_conn_port == source.work_conn_port,
        source.work_conn_port is None ==> final(target).work_conn_port == old(
            target).work_conn_port,
        final(target).proxies@ == old(target).proxies@ + source.proxies@,
        final(target).visitors@ == old(target).visitors@ + source.visitors@,
        old(target).includes is Some && source.includes is Some ==> final(target).includes is Some
            && final(target).includes->0@ == old(target).includes->0@ + source.includes->0@,
        source.includes is None ==> final(target).includes == old(target).includes,
        final(target).auth == old(target).auth,
        final(target).transport == old(target).transport,
        final(target).web_server == old(target).web_server,
{
}

/// A server without files to merge in, and without references, is loaded as it is, where
/// it has a port; without one it is refused for that.
pub proof fn law_server_settings_are_loaded(
    parsed: ServerConfig,
    none: Vec<ServerConfig>,
    env: NameMap<String>,
    limit: usize,
    r: Result<ServerConfig, ConfigProblem>,
    valid: Result<(), ConfigProblem>,
    expanding: &mut ServerConfig,
    expands: bool,
)
    requires
        none@.len() == 0,
        call_ensures(ConfigLoader::load_server_config, (parsed, none, &env, limit), r),
        call_ensures(ConfigLoader::validate_server_config, (&parsed,), valid),
        *old(expanding) == parsed,
        call_ensures(
            ConfigLoader::replace_environment_variables,
            (expanding, &env, limit),
            expands,
        ),
    ensures
        valid is Ok == (parsed.bind_port > 0),
        valid is Err ==> valid == Err::<(), ConfigProblem>(ConfigProblem::BindPortRequired),
        r is Ok == (expands && parsed.bind_port > 0),
        !expands ==> r == Err::<ServerConfig, ConfigProblem>(ConfigProblem::EndlessReferences),
        expands && parsed.bind_port == 0 ==> r == Err::<ServerConfig, ConfigProblem>(
            ConfigProblem::BindPortRequired,
        ),
        r matches Ok(c) ==> c.bind_addr@ == final(expanding).bind_addr@ && c.bind_port
            == parsed.bind_port && c.vhost_http_port == parsed.vhost_http_port && c.vhost_https_port
            == parsed.vhost_https_port && c.proxies@.len() == parsed.proxies@.len(),
{
}

/// The files that settings name are merged into them one after the other: with one file
/// that is what merging that file gives.
pub proof fn law_named_files_are_merged_in(
    parsed: ServerConfig,
    file: ServerConfig,
    files: Vec<ServerConfig>,
    merging: &mut ServerConfig,
    merged: ServerConfig,
)
    requires
        files@ == seq![file],
        call_ensures(merge_all::<ServerConfig>, (parsed, files), merged),
        *old(merging) == parsed,
        call_ensures(ConfigLoader::merge_server_config, (merging, file), ()),
    ensures
        merged.bind_addr@ == final(merging).bind_addr@,
        merged.bind_port == final(merging).bind_port,
        merged.vhost_http_port == final(merging).vhost_http_port,
        merged.vhost_https_port == final(merging).vhost_https_port,
        merged.work_conn_port == final(merging).work_conn_port,
        merged.allow_ports@ == parsed.allow_ports@ + file.allow_ports@,
        merged.proxies@ == parsed.proxies@ + file.proxies@,
{
    reveal_with_fuel(crate::config::merged_all, 2);
    assert(files@.drop_last() =~= Seq::<ServerConfig>::empty());
    assert(files@.last() == file);
}

/// A client needs the address and the port of its server: without the address it is
/// refused for that, and with it without the port for that.
pub proof fn law_client_settings_are_checked(
    config: ClientConfig,
    r: Result<(), ConfigProblem>,
)
    requires
        call_ensures(ConfigLoader::validate_client_config, (&config,), r),
    ensures
        r is Ok == (config.server_addr@.len() > 0 && config.server_port > 0),
        config.server_addr@.len() == 0 ==> r == Err::<(), ConfigProblem>(
            ConfigProblem::ServerAddrRequired,
        ),
        config.server_addr@.len() > 0 && config.server_port == 0 ==> r == Err::<(), ConfigProblem>(
            ConfigProblem::ServerPortRequired,
        ),
{
}

/// A client that is loaded has the address and the port of its server, and the settings
/// that replacing its references gives.
pub proof fn law_client_settings_are_loaded(
    parsed: ClientConfig,
    none: Vec<ClientConfig>,
    env: NameMap<String>,
    limit: usize,
    r: Result<ClientConfig, ConfigProblem>,
    expanding: &mut ClientConfig,
    expands: bool,
)
    requires
        none@.len() == 0,
        call_ensures(ConfigLoader::load_client_config, (parsed, none, &env, limit), r),
        *old(expanding) == parsed,
        call_ensures(
            ConfigLoader::replace_environment_variables_client,
            (expanding, &env, limit),
            expands,
        ),
    ensures
        r is Ok == (expands && final(expanding).server_addr@.len() > 0 && parsed.server_port > 0),
        r matches Ok(c) ==> c.server_addr@ == final(expanding).server_addr@ && c.server_port
            == parsed.server_port && c.proxies@.len() == parsed.proxies@.len()
            && c.visitors@.len() == parsed.visitors@.len(),
{
}

/// Without settings a server listens on port 7000 of all addresses and a client looks for
/// it on this machine; both encrypt, carry everything over one connection, and keep ten
/// work connections; no port is allowed to proxies.
pub proof fn law_default_settings(server: ServerConfig, client: ClientConfig)
    requires
        call_ensures(<ServerConfig as Default>::default, (), server),
        call_ensures(<ClientConfig as Default>::default, (), client),
    ensures
        server.bind_addr@ == "0.0.0.0"@,
        server.bind_port == 7000,
        server.allow_ports@.len() == 0,
        server.auth.method@ == "token"@,
        server.transport.protocol@ == "tcp"@,
        server.transport.tls is Some && server.transport.tls->0.enable,
        server.transport.tcp_mux && !server.transport.tls_only && server.transport.pool_count == 10,
        server.web_server.port == 0,
        client.server_addr@ == "127.0.0.1"@,
        client.server_port == server.bind_port,
        client.auth.method@ == server.auth.method@,
        client.transport.protocol@ == server.transport.protocol@,
        client.transport.tls is Some && client.transport.tls->0.enable,
        client.transport.tcp_mux == server.transport.tcp_mux && client.transport.pool_count == 10,
{
}

/// A server that reads its settings anew has them from then on, and lets clients in by
/// them; where they name no way to log in the former way stays.
pub proof fn law_settings_are_read_anew(
    server: &mut Server,
    config: ServerConfig,
    r: Result<(), ServerError>,
    settings: &ServerConfig,
)
    requires
        crate::auth::config_hashable(config.auth),
        call_ensures(Server::reload_config, (server, config), r),
        call_ensures(Server::settings, (&*final(server),), settings),
    ensures
        *settings == config,
        config.auth.method@ == "token"@ ==> r is Ok == config.auth.token is Some,
        config.auth.method@ == "token"@ && r is Ok ==> (
        final(server).auth().login_check() matches crate::auth::Verifier::Token(v) && v.token()
            == config.auth.token->0@),
        r is Err ==> final(server).auth() == old(server).auth(),
{
    reveal_strlit("token");
    reveal_strlit("oidc");
    assert("token"@.len() != "oidc"@.len());
}

/// A client that reads its settings anew has them from then on.
pub proof fn law_client_settings_are_read_anew(
    client: &mut Client,
    config: ClientConfig,
    settings: &ClientConfig,
)
    requires
        call_ensures(Client::reload_config, (client, config), ()),
        call_ensures(Client::settings, (&*final(client),), settings),
    ensures
        *settings == config,
        final(client).auth() == old(client).auth(),
{
}

/// A reference that is not closed is no reference, and one that is closed cannot be
/// replaced where no replacement is allowed.
pub proof fn law_open_references_stay(
    open: &str,
    before: Seq<char>,
    rest: Seq<char>,
    closed: &str,
    name: Seq<char>,
    env: NameMap<String>,
    limit: usize,
    r: Option<String>,
    none: Option<String>,
)
    requires
        open@ == before + seq!['$', '{'] + rest,
        !before.contains('$'),
        !rest.contains('}'),
        call_ensures(ConfigLoader::replace_env_vars, (open, &env, limit), r),
        closed@ == before + seq!['$', '{'] + name + seq!['}'],
        !name.contains('}'),
        call_ensures(ConfigLoader::replace_env_vars, (closed, &env, 0usize), none),
    ensures
        r is Some && r->0@ == open@,
        none is None,
{
    let i = before.len() as int;
    lemma_reference_at(open@, i);
    let tail = open@.skip(i + 2);
    assert(tail =~= rest);
    assert forall|j: int| 0 <= j < rest.len() implies rest[j] != '}' by {
        assert(rest.contains(rest[j]));
    }
    lemma_find(rest, '}', rest.len() as int);
    assert(!has_ref(open@));
    lemma_reference_at(closed@, i);
    let end = closed@.skip(i + 2);
    assert forall|j: int| 0 <= j < name.len() implies end[j] != '}' by {
        assert(name.contains(name[j]));
    }
    assert(end[name.len() as int] == '}');
    lemma_find(end, '}', name.len() as int);
    assert(has_ref(closed@));
}

/// Of several files the later one decides, and the lists of all of them follow each other
/// in order.
pub proof fn law_later_files_decide(
    parsed: ServerConfig,
    one: ServerConfig,
    two: ServerConfig,
    files: Vec<ServerConfig>,
    merged: ServerConfig,
)
    requires
        files@ == seq![one, two],
        call_ensures(merge_all::<ServerConfig>, (parsed, files), merged),
    ensures
        two.bind_port > 0 ==> merged.bind_port == two.bind_port,
        two.bind_port == 0 && one.bind_port > 0 ==> merged.bind_port == one.bind_port,
        two.bind_port == 0 && one.bind_port == 0 ==> merged.bind_port == parsed.bind_port,
        two.vhost_http_port is Some ==> merged.vhost_http_port == two.vhost_http_port,
        two.vhost_http_port is None && one.vhost_http_port is Some ==> merged.vhost_http_port
            == one.vhost_http_port,
        merged.proxies@ == parsed.proxies@ + one.proxies@ + two.proxies@,
        merged.allow_ports@ == parsed.allow_ports@ + one.allow_ports@ + two.allow_ports@,
{
    reveal_with_fuel(crate::config::merged_all, 3);
    assert(files@.drop_last() =~= seq![one]);
    assert(files@.drop_last().drop_last() =~= Seq::<ServerConfig>::empty());
    assert(files@.last() == two);
    assert(files@.drop_last().last() == one);
}

/// So it is for the files of a client.
pub proof fn law_later_client_files_decide(
    parsed: ClientConfig,
    one: ClientConfig,
    two: ClientConfig,
    files: Vec<ClientConfig>,
    merged: ClientConfig,
)
    requires
        files@ == seq![one, two],
        call_ensures(merge_all::<ClientConfig>, (parsed, files), merged),
    ensures
        two.server_port > 0 ==> merged.server_port == two.server_port,
        two.server_port == 0 && one.server_port > 0 ==> merged.server_port == one.server_port,
        two.server_port == 0 && one.server_port == 0 ==> merged.server_port == parsed.server_port,
        two.server_addr@.len() > 0 ==> merged.server_addr@ == two.server_addr@,
        merged.proxies@ == parsed.proxies@ + one.proxies@ + two.proxies@,
        merged.visitors@ == parsed.visitors@ + one.visitors@ + two.visitors@,
{
    reveal_with_fuel(crate::config::merged_all, 3);
    assert(files@.drop_last() =~= seq![one]);
    assert(files@.drop_last().drop_last() =~= Seq::<ClientConfig>::empty());
    assert(files@.last() == two);
    assert(files@.drop_last().last() == one);
}

/// A server and a client know the file that their settings come from.
pub proof fn law_settings_know_their_file(
    server_config: ServerConfig,
    client_config: ClientConfig,
    path: Option<String>,
    server: Server,
    client: Client,
    a: Option<&str>,
    b: Option<&str>,
)
    requires
        call_ensures(Server::new, (server_config, path), Ok(server)),
        call_ensures(Client::new, (client_config, path), Ok(client)),
        call_ensures(Server::config_file, (&server,), a),
        call_ensures(Client::config_file, (&client,), b),
    ensures
        a is Some == path is Some,
        b is Some == path is Some,
        path is Some ==> a->0@ == path->0@ && b->0@ == path->0@,
{
}

/// A client is made exactly where its settings name a way to log in, and with them.
pub proof fn law_clients_are_made(
    config: ClientConfig,
    path: Option<String>,
    made: Result<Client, ClientError>,
    settings: &ClientConfig,
)
    requires
        crate::auth::config_hashable(config.auth),
        call_ensures(Client::new, (config, path), made),
        made is Ok ==> call_ensures(Client::settings, (&made->Ok_0,), settings),
    ensures
        made is Ok == ((config.auth.method@ == "token"@ && config.auth.token is Some) || (
        config.auth.method@ == "oidc"@ && config.auth.oidc is Some)),
        made is Ok ==> *settings == config,
{
}

/// Settings with their references replaced are what replacing the references in place
/// leaves, and there are none exactly where that fails.
pub proof fn law_expanded_settings_are_a_copy(
    config: &mut ServerConfig,
    client: &mut ClientConfig,
    env: NameMap<String>,
    limit: usize,
    server_done: bool,
    client_done: bool,
    server_copy: Option<ServerConfig>,
    client_copy: Option<ClientConfig>,
)
    requires
        call_ensures(expand_server, (&*old(config), &env, limit), server_copy),
        call_ensures(expand_client, (&*old(client), &env, limit), client_copy),
        call_ensures(
            ConfigLoader::replace_environment_variables,
            (config, &env, limit),
            server_done,
        ),
        call_ensures(
            ConfigLoader::replace_environment_variables_client,
            (client, &env, limit),
            client_done,
        ),
    ensures
        server_copy is Some == server_done,
        client_copy is Some == client_done,
        server_done ==> server_copy->0.bind_addr@ == final(config).bind_addr@,
        client_done ==> client_copy->0.server_addr@ == final(client).server_addr@,
        !server_done ==> *final(config) == *old(config),
        !client_done ==> *final(client) == *old(client),
{
}

/// Merging a file in by its kind is merging it in.
pub proof fn law_merging_by_kind(
    a: &mut ServerConfig,
    b: &mut ServerConfig,
    source: ServerConfig,
    c: &mut ClientConfig,
    d: &mut ClientConfig,
    client_source: ClientConfig,
)
    requires
        *old(a) == *old(b),
        call_ensures(<ServerConfig as Merge>::merge, (a, source), ()),
        call_ensures(ConfigLoader::merge_server_config, (b, source), ()),
        *old(c) == *old(d),
        call_ensures(<ClientConfig as Merge>::merge, (c, client_source), ()),
        call_ensures(ConfigLoader::merge_client_config, (d, client_source), ()),
    ensures
        final(a).bind_port == final(b).bind_port,
        final(a).bind_addr@ == final(b).bind_addr@,
        final(a).proxies@ == final(b).proxies@,
        final(c).server_port == final(d).server_port,
        final(c).server_addr@ == final(d).server_addr@,
        final(c).proxies@ == final(d).proxies@,
        final(c).visitors@ == final(d).visitors@,
{
}

} // verus!
