//! Which proxy serves a host: domains that proxies registered, and the answers to
//! requests that cannot be forwarded.
use crate::codec::lossy_text_of;
use crate::config::{text_values, ProxyConfig};
use crate::control::ControlManager;
use crate::http::{is_request, request_headers, HttpRequestInfo};
use crate::names::NameMap;
use crate::text::{decimal, ends_with, push_decimal, same, spec_lines, texts};
use std::sync::Arc;
use vstd::prelude::*;
use vstd::string::*;
use vstd::utf8::encode_utf8;

verus! {

/// The domains of HTTP proxies.
pub struct HttpVhostRouter {
    domain_map: NameMap<String>,
    proxy_configs: NameMap<Arc<ProxyConfig>>,
}

/// `m` with each of `domains` given to the proxy `name`.
pub open spec fn with_domains(
    m: Map<Seq<char>, Seq<char>>,
    domains: Seq<Seq<char>>,
    name: Seq<char>,
) -> Map<Seq<char>, Seq<char>>
    decreases domains.len(),
{
    if domains.len() == 0 {
        m
    } else {
        with_domains(m, domains.drop_last(), name).insert(domains.last(), name)
    }
}

/// `m` without the domains of the proxy `name`.
pub open spec fn without_proxy(m: Map<Seq<char>, Seq<char>>, name: Seq<char>) -> Map<
    Seq<char>,
    Seq<char>,
> {
    Map::new(|d: Seq<char>| m.contains_key(d) && m[d] != name, |d: Seq<char>| m[d])
}

/// `d` is a registered domain that `host` ends with, and `proxy` is its proxy.
pub open spec fn ends_in_domain(
    m: Map<Seq<char>, Seq<char>>,
    host: Seq<char>,
    d: Seq<char>,
    proxy: Seq<char>,
) -> bool {
    m.contains_key(d) && m[d] == proxy && d.is_suffix_of(host)
}

/// `proxy` is the proxy of a registered domain that `host` ends with.
pub open spec fn serves_suffix(
    m: Map<Seq<char>, Seq<char>>,
    host: Seq<char>,
    proxy: Seq<char>,
) -> bool {
    exists|d: Seq<char>| #[trigger] ends_in_domain(m, host, d, proxy)
}

/// `host` ends with no registered domain.
pub open spec fn has_no_domain(m: Map<Seq<char>, Seq<char>>, host: Seq<char>) -> bool {
    forall|d: Seq<char>| #[trigger] m.contains_key(d) ==> !d.is_suffix_of(host)
}

/// The proxy that `host` may be routed to: that of the very domain, where it is
/// registered, else that of a domain that the host ends with; none where there is
/// no such domain.
pub open spec fn routes_to(
    m: Map<Seq<char>, Seq<char>>,
    host: Seq<char>,
    proxy: Option<Seq<char>>,
) -> bool {
    match proxy {
        Some(p) => if m.contains_key(host) {
            p == m[host]
        } else {
            serves_suffix(m, host, p)
        },
        None => has_no_domain(m, host),
    }
}

impl HttpVhostRouter {
    /// The proxy of each domain.
    pub closed spec fn domains(self) -> Map<Seq<char>, Seq<char>> {
        text_values(self.domain_map@)
    }

    /// The settings of each proxy with domains.
    pub closed spec fn configs(self) -> Map<Seq<char>, Arc<ProxyConfig>> {
        self.proxy_configs@
    }

    pub fn new() -> (r: Self)
        ensures
            r.domains() == Map::<Seq<char>, Seq<char>>::empty(),
            r.configs() == Map::<Seq<char>, Arc<ProxyConfig>>::empty(),
    {
        let r = HttpVhostRouter { domain_map: NameMap::new(), proxy_configs: NameMap::new() };
        assert(r.domains() =~= Map::<Seq<char>, Seq<char>>::empty());
        r
    }

    /// Gives domains to a proxy, also those that another proxy had.
    pub fn register_proxy(
        &mut self,
        proxy_name: String,
        domains: Vec<String>,
        config: Arc<ProxyConfig>,
    )
        ensures
            final(self).domains() == with_domains(
                old(self).domains(),
                texts(domains@),
                proxy_name@,
            ),
            final(self).configs() == old(self).configs().insert(proxy_name@, config),
    {
        let mut i: usize = 0;
        assert(texts(domains@).take(0) =~= Seq::<Seq<char>>::empty());
        while i < domains.len()
            invariant
                i <= domains.len(),
                self.domains() == with_domains(
                    old(self).domains(),
                    texts(domains@).take(i as int),
                    proxy_name@,
                ),
                self.proxy_configs@ == old(self).proxy_configs@,
            decreases domains.len() - i,
        {
            let ghost before = self.domain_map@;
            let ghost upto = texts(domains@).take(i + 1);
            assert(upto.drop_last() == texts(domains@).take(i as int));
            let name: String = proxy_name.clone();
            self.domain_map.insert(domains[i].clone(), name);
            assert(self.domains() =~= text_values(before).insert(domains@[i as int]@, name@));
            i = i + 1;
        }
        assert(texts(domains@).take(i as int) == texts(domains@));
        self.proxy_configs.insert(proxy_name, config);
    }

    /// Takes all domains of a proxy away.
    pub fn unregister_proxy(&mut self, proxy_name: &str)
        ensures
            final(self).domains() == without_proxy(old(self).domains(), proxy_name@),
            final(self).configs() == old(self).configs().remove(proxy_name@),
    {
        let ghost start = self.domain_map@;
        let mut i: usize = 0;
        while i < self.domain_map.len()
            invariant
                i <= self.domain_map.names().len(),
                self.domain_map@.submap_of(start),
                forall|d: Seq<char>| #[trigger]
                    start.contains_key(d) && !self.domain_map@.contains_key(d) ==> start[d]@
                        == proxy_name@,
                forall|k: int|
                    #![trigger self.domain_map.names()[k]]
                    0 <= k < i ==> self.domain_map@.contains_key(self.domain_map.names()[k])
                        && self.domain_map@[self.domain_map.names()[k]]@ != proxy_name@,
                self.proxy_configs@ == old(self).proxy_configs@,
                start == old(self).domain_map@,
            decreases self.domain_map.names().len() - i,
        {
            if same(self.domain_map.value_at(i).as_str(), proxy_name) {
                let ghost before = self.domain_map;
                let e = self.domain_map.remove_at(i);
                assert forall|k: int|
                    #![trigger self.domain_map.names()[k]]
                    0 <= k < i implies self.domain_map@.contains_key(self.domain_map.names()[k])
                    && self.domain_map@[self.domain_map.names()[k]]@ != proxy_name@ by {
                    assert(self.domain_map.names()[k] == before.names()[k]);
                    assert(before@[before.names()[k]]@ != proxy_name@);
                    assert(e.0@ != before.names()[k]);
                }
            } else {
                i = i + 1;
            }
        }
        proof {
            self.domain_map.lemma_names();
            let now = self.domain_map@;
            let gone = without_proxy(old(self).domains(), proxy_name@);
            assert forall|d: Seq<char>| #[trigger] now.contains_key(d) implies now[d]@
                != proxy_name@ by {
                assert(self.domain_map.names().contains(d));
                let k = choose|k: int|
                    0 <= k < self.domain_map.names().len() && self.domain_map.names()[k] == d;
                assert(self.domain_map@[self.domain_map.names()[k]]@ != proxy_name@);
            }
            assert forall|d: Seq<char>| self.domains().contains_key(d) <==> gone.contains_key(d) by {
                if gone.contains_key(d) && !now.contains_key(d) {
                    assert(start.contains_key(d));
                }
            }
            assert(self.domains() =~= gone);
        }
        let _ = self.proxy_configs.remove(proxy_name);
    }

    /// The proxy that serves a host. A domain that is registered as it stands comes
    /// before one that the host only ends with.
    pub fn find_proxy_by_host(&self, host: &str) -> (proxy: Option<String>)
        ensures
            routes_to(
                self.domains(),
                host@,
                match proxy {
                    Some(p) => Some(p@),
                    None => None,
                },
            ),
    {
        if let Some(p) = self.domain_map.get(host) {
            return Some(p.clone());
        }
        let mut i: usize = 0;
        while i < self.domain_map.len()
            invariant
                i <= self.domain_map.names().len(),
                !self.domain_map@.contains_key(host@),
                forall|k: int|
                    0 <= k < i ==> !(#[trigger] self.domain_map.names()[k]).is_suffix_of(host@),
            decreases self.domain_map.names().len() - i,
        {
            if ends_with(host, self.domain_map.name_at(i).as_str()) {
                let p: String = self.domain_map.value_at(i).clone();
                assert(ends_in_domain(
                    self.domains(),
                    host@,
                    self.domain_map.names()[i as int],
                    p@,
                ));
                assert(serves_suffix(self.domains(), host@, p@));
                assert(!self.domains().contains_key(host@));
                return Some(p);
            }
            i = i + 1;
        }
        proof {
            self.domain_map.lemma_names();
            assert forall|d: Seq<char>| #[trigger]
                self.domains().contains_key(d) implies !d.is_suffix_of(host@) by {
                assert(self.domain_map@.contains_key(d));
                assert(self.domain_map.names().contains(d));
            }
        }
        None
    }

    /// The settings of a proxy with domains.
    pub fn get_proxy_config(&self, proxy_name: &str) -> (config: Option<&Arc<ProxyConfig>>)
        ensures
            match config {
                Some(c) => self.configs().contains_key(proxy_name@) && *c
                    == self.configs()[proxy_name@],
                None => !self.configs().contains_key(proxy_name@),
            },
    {
        self.proxy_configs.get(proxy_name)
    }
}

/// What is done with a connection to the HTTP port.
pub enum VhostAnswer {
    /// The visitor closed it without sending anything.
    Closed,
    /// This is sent back, and the connection ends.
    Respond(String),
    /// The client of this proxy cannot be reached: this is sent back, and the
    /// connection, which counts as one of the proxy, ends.
    Unreachable { proxy_name: String, text: String },
    /// A work connection of this proxy, from the client of this run, takes over.
    Forward { proxy_name: String, run_id: String },
}

/// The answer to what is not a request.
pub open spec fn bad_request() -> Seq<char> {
    "HTTP/1.1 400 Bad Request\r\nContent-Length: 0\r\n\r\n"@
}

/// The body of the answer to a request for an unknown host.
pub open spec fn not_found_body(host: Seq<char>) -> Seq<char> {
    "Proxy not found for host: "@ + host
}

/// The answer to a request for an unknown host.
pub open spec fn not_found(host: Seq<char>) -> Seq<char> {
    "HTTP/1.1 404 Not Found\r\nContent-Type: text/plain\r\nContent-Length: "@ + decimal(
        encode_utf8(not_found_body(host)).len(),
    ) + "\r\n\r\n"@ + not_found_body(host)
}

/// The answer where no client offers the proxy.
pub open spec fn no_owner() -> Seq<char> {
    "HTTP/1.1 503 Service Unavailable\r\nContent-Type: text/plain\r\nContent-Length: 30\r\n\r\nProxy not registered by any client"@
}

/// The answer where the client that offers the proxy is gone.
pub open spec fn no_channel() -> Seq<char> {
    "HTTP/1.1 503 Service Unavailable\r\nContent-Type: text/plain\r\nContent-Length: 37\r\n\r\nMessage channel not found"@
}

/// The answer where no work connection came in time.
pub open spec fn gateway_timeout() -> Seq<char> {
    "HTTP/1.1 504 Gateway Timeout\r\n\r\n"@
}

/// The answer where a group has no member to hand a connection to.
pub open spec fn no_members() -> Seq<char> {
    "HTTP/1.1 503 Service Unavailable\r\nContent-Type: text/plain\r\nContent-Length: 29\r\n\r\nNo available group members"@
}

pub fn bad_request_text() -> (t: String)
    ensures
        t@ == bad_request(),
{
    "HTTP/1.1 400 Bad Request\r\nContent-Length: 0\r\n\r\n".to_string()
}

pub fn no_owner_text() -> (t: String)
    ensures
        t@ == no_owner(),
{
    "HTTP/1.1 503 Service Unavailable\r\nContent-Type: text/plain\r\nContent-Length: 30\r\n\r\nProxy not registered by any client".to_string()
}

pub fn no_channel_text() -> (t: String)
    ensures
        t@ == no_channel(),
{
    "HTTP/1.1 503 Service Unavailable\r\nContent-Type: text/plain\r\nContent-Length: 37\r\n\r\nMessage channel not found".to_string()
}

pub fn gateway_timeout_text() -> (t: String)
    ensures
        t@ == gateway_timeout(),
{
    "HTTP/1.1 504 Gateway Timeout\r\n\r\n".to_string()
}

pub fn no_members_text() -> (t: String)
    ensures
        t@ == no_members(),
{
    "HTTP/1.1 503 Service Unavailable\r\nContent-Type: text/plain\r\nContent-Length: 29\r\n\r\nNo available group members".to_string()
}

/// The answer to a request for an unknown host.
pub fn not_found_text(host: &str) -> (t: String)
    ensures
        t@ == not_found(host@),
{
    let body: String = "Proxy not found for host: ".to_string().concat(host);
    let mut out: String =
        "HTTP/1.1 404 Not Found\r\nContent-Type: text/plain\r\nContent-Length: ".to_string();
    push_decimal(&mut out, body.as_str().as_bytes().len() as u64);
    out.append("\r\n\r\n");
    out.append(body.as_str());
    out
}

/// What is done with a request for `host` that the router maps to `proxy`, where
/// the owners of proxies and the runs that can be reached are given.
pub open spec fn answer_for(
    host: Seq<char>,
    proxy: Option<Seq<char>>,
    owners: Map<Seq<char>, Seq<char>>,
    reachable: Set<Seq<char>>,
    answer: VhostAnswer,
) -> bool {
    match proxy {
        None => answer matches VhostAnswer::Respond(t) && t@ == not_found(host),
        Some(p) => if !owners.contains_key(p) {
            answer matches VhostAnswer::Unreachable { proxy_name, text } && proxy_name@ == p
                && text@ == no_owner()
        } else if !reachable.contains(owners[p]) {
            answer matches VhostAnswer::Unreachable { proxy_name, text } && proxy_name@ == p
                && text@ == no_channel()
        } else {
            answer matches VhostAnswer::Forward { proxy_name, run_id } && proxy_name@ == p
                && run_id@ == owners[p]
        },
    }
}

/// What is done with the text of a request.
pub open spec fn answer_to_text(
    text: Seq<char>,
    domains: Map<Seq<char>, Seq<char>>,
    owners: Map<Seq<char>, Seq<char>>,
    reachable: Set<Seq<char>>,
    answer: VhostAnswer,
) -> bool {
    if !is_request(text) {
        answer matches VhostAnswer::Respond(t) && t@ == bad_request()
    } else {
        let host = request_headers(spec_lines(text)).host;
        exists|proxy: Option<Seq<char>>| #[trigger]
            routes_to(domains, host, proxy) && answer_for(host, proxy, owners, reachable, answer)
    }
}

/// What is done with the first bytes that a visitor of the HTTP or HTTPS port sent.
pub fn answer_vhost_request<C>(
    data: &[u8],
    router: &HttpVhostRouter,
    owners: &NameMap<String>,
    controls: &ControlManager<C>,
) -> (answer: VhostAnswer)
    ensures
        if data@.len() == 0 {
            answer is Closed
        } else {
            answer_to_text(
                lossy_text_of(data@),
                router.domains(),
                text_values(owners@),
                controls.reachable(),
                answer,
            )
        },
{
    if data.len() == 0 {
        return VhostAnswer::Closed;
    }
    match HttpRequestInfo::parse(data) {
        None => VhostAnswer::Respond(bad_request_text()),
        Some(info) => answer_parsed_request(&info, router, owners, controls),
    }
}

/// What is done with a request that was read.
pub fn answer_parsed_request<C>(
    info: &HttpRequestInfo,
    router: &HttpVhostRouter,
    owners: &NameMap<String>,
    controls: &ControlManager<C>,
) -> (answer: VhostAnswer)
    ensures
        exists|proxy: Option<Seq<char>>| #[trigger]
            routes_to(router.domains(), info.host@, proxy) && answer_for(
                info.host@,
                proxy,
                text_values(owners@),
                controls.reachable(),
                answer,
            ),
{
    match router.find_proxy_by_host(info.host.as_str()) {
        None => {
            assert(routes_to(router.domains(), info.host@, None));
            VhostAnswer::Respond(not_found_text(info.host.as_str()))
        },
        Some(proxy_name) => {
            assert(routes_to(router.domains(), info.host@, Some(proxy_name@)));
            match owners.get(proxy_name.as_str()) {
                None => VhostAnswer::Unreachable { proxy_name, text: no_owner_text() },
                Some(run_id) => {
                    if controls.is_reachable(run_id.as_str()) {
                        VhostAnswer::Forward { proxy_name, run_id: run_id.clone() }
                    } else {
                        VhostAnswer::Unreachable { proxy_name, text: no_channel_text() }
                    }
                },
            }
        },
    }
}

/// A host is routed to the proxy that registered it last.
pub proof fn law_registered_domain_is_served(
    m: Map<Seq<char>, Seq<char>>,
    domains: Seq<Seq<char>>,
    name: Seq<char>,
    host: Seq<char>,
    proxy: Option<Seq<char>>,
)
    requires
        domains.contains(host),
        routes_to(with_domains(m, domains, name), host, proxy),
    ensures
        proxy == Some(name),
{
    lemma_with_domain(m, domains, name, host);
    let all = with_domains(m, domains, name);
    assert(all.contains_key(host) && all[host] == name);
    if proxy is None {
        assert(host.is_suffix_of(host)) by {
            assert(host.subrange(0, host.len() as int) =~= host);
        }
    }
}

proof fn lemma_with_domain(
    m: Map<Seq<char>, Seq<char>>,
    domains: Seq<Seq<char>>,
    name: Seq<char>,
    d: Seq<char>,
)
    requires
        domains.contains(d),
    ensures
        with_domains(m, domains, name).contains_key(d),
        with_domains(m, domains, name)[d] == name,
    decreases domains.len(),
{
    if d != domains.last() {
        let k = domains.index_of(d);
        assert(domains.drop_last()[k] == d);
        lemma_with_domain(m, domains.drop_last(), name, d);
    }
}

/// No host is routed to a proxy whose domains were taken away.
pub proof fn law_unregistered_proxy_is_unreachable(
    m: Map<Seq<char>, Seq<char>>,
    name: Seq<char>,
    host: Seq<char>,
    proxy: Option<Seq<char>>,
)
    requires
        routes_to(without_proxy(m, name), host, proxy),
    ensures
        proxy != Some(name),
{
    let rest = without_proxy(m, name);
    if proxy == Some(name) && !rest.contains_key(host) {
        let d = choose|d: Seq<char>| #[trigger] ends_in_domain(rest, host, d, name);
        assert(rest.contains_key(d));
    }
}

} // verus!
