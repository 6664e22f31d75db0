//! Which proxies start, and where their visitors go.
use crate::client::{find_proxy, ClientError, ClientVisitorManager};
use crate::config::{text_values, ClientConfig, PortRange, ProxyConfig, ServerConfig, VisitorConfig};
use crate::control::ControlManager;
use crate::http::HttpRequestInfo;
use crate::link::work_conn_proxy;
use crate::message::{ProxyManager, VisitorManager};
use crate::names::NameMap;
use crate::proxies::{port_allowed, ProxyRefusal, ServerProxyManager, StartAction, StopAction};
use crate::server::{route_to_target, route_visitor, Server, VisitorRoute};
use crate::session::ServerState;
use crate::text::{decimal, texts};
use crate::vhost::{
    answer_parsed_request, law_registered_domain_is_served, law_unregistered_proxy_is_unreachable,
    HttpVhostRouter, VhostAnswer,
};
use std::sync::Arc;
use vstd::prelude::*;
use vstd::string::*;
use vstd::utf8::encode_utf8;

verus! {

/// `host` is one of the domains of a proxy, or its subdomain.
pub open spec fn names_host(config: ProxyConfig, host: Seq<char>) -> bool {
    ||| (config.custom_domains is Some && exists|i: int|
        #![trigger config.custom_domains->0@[i]]
        0 <= i < config.custom_domains->0@.len() && config.custom_domains->0@[i]@ == host)
    ||| (config.subdomain is Some && config.subdomain->0@ == host)
}

proof fn lemma_host_is_a_domain(config: ProxyConfig, host: Seq<char>)
    ensures
        names_host(config, host) == crate::proxies::proxy_domains(config).contains(host),
{
    let all = crate::proxies::proxy_domains(config);
    let own = match config.custom_domains {
        Some(list) => texts(list@),
        None => seq![],
    };
    if config.custom_domains is Some {
        assert forall|i: int| 0 <= i < own.len() implies own[i]
            == #[trigger] config.custom_domains->0@[i]@ by {}
    }
    if config.subdomain is Some {
        assert(all[own.len() as int] == config.subdomain->0@);
    }
    assert forall|i: int| 0 <= i < own.len() implies all[i] == #[trigger] own[i] by {}
    if names_host(config, host) {
        if config.subdomain is Some && config.subdomain->0@ == host {
            assert(all.contains(host));
        } else {
            let i = choose|i: int|
                #![trigger config.custom_domains->0@[i]]
                0 <= i < config.custom_domains->0@.len() && config.custom_domains->0@[i]@ == host;
            assert(own[i] == host);
            assert(all[i] == host);
        }
    }
    if all.contains(host) {
        let i = all.index_of(host);
        if i < own.len() {
            assert(config.custom_domains->0@[i]@ == host);
        }
    }
}

/// Once an `http` or `https` proxy is added, each of its custom domains and its subdomain
/// is routed to it.
pub proof fn law_domains_are_routed(
    manager: &mut ServerProxyManager,
    config: ProxyConfig,
    user: &str,
    action: StartAction,
    router: &HttpVhostRouter,
    host: &str,
    found: Option<String>,
)
    requires
        old(manager).wf(),
        call_ensures(
            ServerProxyManager::add_proxy_for_user,
            (manager, config, user),
            Ok(action),
        ),
        config.kind@ == "http"@ || config.kind@ == "https"@,
        names_host(config, host@),
        call_ensures(ServerProxyManager::get_http_vhost_router, (&*final(manager),), router),
        call_ensures(HttpVhostRouter::find_proxy_by_host, (router, host), found),
    ensures
        action is Routed,
        found is Some,
        found->0@ == config.name@,
{
    reveal_strlit("tcp");
    reveal_strlit("http");
    reveal_strlit("https");
    assert("tcp"@.len() != "http"@.len());
    assert("tcp"@.len() != "https"@.len());
    lemma_host_is_a_domain(config, host@);
    law_registered_domain_is_served(
        old(manager).domains(),
        crate::proxies::proxy_domains(config),
        config.name@,
        host@,
        match found {
            Some(p) => Some(p@),
            None => None,
        },
    );
}

/// The same holds of the proxies that a server adds for itself.
pub proof fn law_own_domains_are_routed(
    manager: &mut ServerProxyManager,
    config: ProxyConfig,
    action: StartAction,
    router: &HttpVhostRouter,
    host: &str,
    found: Option<String>,
)
    requires
        old(manager).wf(),
        call_ensures(
            <ServerProxyManager as ProxyManager>::add_proxy,
            (manager, config),
            Ok(action),
        ),
        config.kind@ == "http"@ || config.kind@ == "https"@,
        names_host(config, host@),
        call_ensures(ServerProxyManager::get_http_vhost_router, (&*final(manager),), router),
        call_ensures(HttpVhostRouter::find_proxy_by_host, (router, host), found),
    ensures
        action is Routed,
        found is Some,
        found->0@ == config.name@,
{
    reveal_strlit("tcp");
    reveal_strlit("http");
    reveal_strlit("https");
    assert("tcp"@.len() != "http"@.len());
    assert("tcp"@.len() != "https"@.len());
    lemma_host_is_a_domain(config, host@);
    law_registered_domain_is_served(
        old(manager).domains(),
        crate::proxies::proxy_domains(config),
        config.name@,
        host@,
        match found {
            Some(p) => Some(p@),
            None => None,
        },
    );
}

/// A host that nobody serves stays so when a proxy is added none of whose domains ends
/// the host.
pub proof fn law_other_hosts_stay_unknown(
    manager: &mut ServerProxyManager,
    config: ProxyConfig,
    user: &str,
    r: Result<StartAction, ProxyRefusal>,
    before: &HttpVhostRouter,
    after: &HttpVhostRouter,
    host: &str,
    found: Option<String>,
)
    requires
        old(manager).wf(),
        call_ensures(ServerProxyManager::get_http_vhost_router, (&*old(manager),), before),
        call_ensures(HttpVhostRouter::find_proxy_by_host, (before, host), None::<String>),
        call_ensures(ServerProxyManager::add_proxy_for_user, (manager, config, user), r),
        forall|d: Seq<char>| #[trigger] names_host(config, d) ==> !d.is_suffix_of(host@),
        call_ensures(ServerProxyManager::get_http_vhost_router, (&*final(manager),), after),
        call_ensures(HttpVhostRouter::find_proxy_by_host, (after, host), found),
    ensures
        found is None,
{
    let domains = crate::proxies::proxy_domains(config);
    let m = old(manager).domains();
    let all = crate::vhost::with_domains(m, domains, config.name@);
    assert forall|d: Seq<char>| #[trigger] all.contains_key(d) implies !d.is_suffix_of(host@) by {
        lemma_only_these(m, domains, config.name@, d);
        lemma_host_is_a_domain(config, d);
        if domains.contains(d) {
            assert(names_host(config, d));
        } else {
            assert(m.contains_key(d));
        }
    }
    if found is Some && after.domains().contains_key(host@) {
        assert(host@.is_suffix_of(host@)) by {
            assert(host@.subrange(0, host@.len() as int) =~= host@);
        }
    }
    if found is Some && !after.domains().contains_key(host@) {
        let d = choose|d: Seq<char>| #[trigger]
            crate::vhost::ends_in_domain(after.domains(), host@, d, found->0@);
        assert(after.domains().contains_key(d));
    }
}

proof fn lemma_only_these(
    m: Map<Seq<char>, Seq<char>>,
    domains: Seq<Seq<char>>,
    name: Seq<char>,
    d: Seq<char>,
)
    requires
        crate::vhost::with_domains(m, domains, name).contains_key(d),
    ensures
        m.contains_key(d) || domains.contains(d),
    decreases domains.len(),
{
    if domains.len() > 0 {
        if d != domains.last() {
            lemma_only_these(m, domains.drop_last(), name, d);
            if domains.drop_last().contains(d) {
                let k = domains.drop_last().index_of(d);
                assert(domains[k] == d);
            }
        } else {
            assert(domains[domains.len() - 1] == d);
        }
    }
}

/// A host that ends with a domain of the only proxy with domains is routed to it.
pub proof fn law_longer_hosts_are_routed(
    fresh: HttpVhostRouter,
    router: &mut HttpVhostRouter,
    name: String,
    domain: String,
    config: Arc<ProxyConfig>,
    domains: Vec<String>,
    host: &str,
    found: Option<String>,
)
    requires
        call_ensures(HttpVhostRouter::new, (), fresh),
        *old(router) == fresh,
        domains@ == seq![domain],
        call_ensures(HttpVhostRouter::register_proxy, (router, name, domains, config), ()),
        call_ensures(HttpVhostRouter::find_proxy_by_host, (&*final(router), host), found),
    ensures
        domain@.is_suffix_of(host@) ==> found is Some && found->0@ == name@,
        !domain@.is_suffix_of(host@) ==> found is None,
{
    let all = final(router).domains();
    assert(texts(domains@) =~= seq![domain@]);
    assert(texts(domains@).drop_last() =~= Seq::<Seq<char>>::empty());
    reveal_with_fuel(crate::vhost::with_domains, 2);
    assert(all =~= Map::<Seq<char>, Seq<char>>::empty().insert(domain@, name@));
    assert(all.contains_key(domain@));
    assert(domain@.is_suffix_of(domain@)) by {
        assert(domain@.subrange(0, domain@.len() as int) =~= domain@);
    }
}

/// Once a proxy is removed no host is routed to it, and it is not known any more.
pub proof fn law_removed_proxy_is_not_found(
    manager: &mut ServerProxyManager,
    name: &str,
    action: StopAction,
    router: &HttpVhostRouter,
    host: &str,
    found: Option<String>,
    status: Option<String>,
)
    requires
        old(manager).wf(),
        call_ensures(<ServerProxyManager as ProxyManager>::remove_proxy, (manager, name), action),
        call_ensures(ServerProxyManager::get_http_vhost_router, (&*final(manager),), router),
        call_ensures(HttpVhostRouter::find_proxy_by_host, (router, host), found),
        call_ensures(
            <ServerProxyManager as ProxyManager>::get_proxy_status,
            (&*final(manager), name),
            status,
        ),
    ensures
        found is Some ==> found->0@ != name@,
        status is None,
{
    law_unregistered_proxy_is_unreachable(
        old(manager).domains(),
        name@,
        host@,
        match found {
            Some(p) => Some(p@),
            None => None,
        },
    );
}

/// A port is allowed exactly where a range holds it: as its single port, or between its
/// two ends.
pub proof fn law_allowed_ports(port: u16, ranges: &[PortRange], b: bool)
    requires
        call_ensures(port_allowed, (port, ranges), b),
    ensures
        b <==> exists|i: int|
            #![trigger ranges@[i]]
            0 <= i < ranges@.len() && (ranges@[i].single == Some(port) || (ranges@[i].start is Some
                && ranges@[i].end is Some && ranges@[i].start->0 <= port
                && port <= ranges@[i].end->0)),
{
    if b {
        let i = choose|i: int|
            0 <= i < ranges@.len() && crate::proxies::range_holds(#[trigger] ranges@[i], port);
        assert(0 <= i < ranges@.len());
    }
    assert forall|i: int|
        #![trigger ranges@[i]]
        0 <= i < ranges@.len() && (ranges@[i].single == Some(port) || (ranges@[i].start is Some
            && ranges@[i].end is Some && ranges@[i].start->0 <= port && port
            <= ranges@[i].end->0)) implies b by {
        assert(crate::proxies::range_holds(ranges@[i], port));
    }
}

/// A proxy that needs a port gets exactly the one that it asks for, with a listener of
/// its kind under its own name, and only where the port is allowed; where it is not, the
/// proxy is refused for that port.
pub proof fn law_ports_are_bound_as_asked(
    manager: &mut ServerProxyManager,
    config: ProxyConfig,
    user: &str,
    ranges: &[PortRange],
    port: u16,
    allowed: bool,
    r: Result<StartAction, ProxyRefusal>,
)
    requires
        old(manager).wf(),
        ranges@ == old(manager).allow(),
        config.remote_port == Some(port),
        config.group is None,
        call_ensures(port_allowed, (port, ranges), allowed),
        call_ensures(ServerProxyManager::add_proxy_for_user, (manager, config, user), r),
        config.kind@ == "tcp"@ || config.kind@ == "udp"@ || config.kind@ == "websocket"@,
    ensures
        !allowed ==> r is Err,
        r matches Err(ProxyRefusal::PortNotAllowed { port: p }) ==> p == port && !allowed,
        r matches Err(e) ==> e is AlreadyExists || e is QuotaExceeded || e is PortNotAllowed,
        r is Ok && config.kind@ == "tcp"@ ==> (r->Ok_0 matches StartAction::BindTcp {
            port: p,
            key,
            grouped,
        } && p == port && key@ == config.name@ && !grouped),
        r is Ok && config.kind@ == "udp"@ ==> r->Ok_0 == (StartAction::BindUdp { port }),
        r is Ok && config.kind@ == "websocket"@ ==> r->Ok_0 == (StartAction::BindWebsocket {
            port,
        }),
{
    reveal_strlit("tcp");
    reveal_strlit("udp");
    reveal_strlit("http");
    reveal_strlit("https");
    reveal_strlit("websocket");
    assert("udp"@[0] != "tcp"@[0]);
    assert("websocket"@.len() != "udp"@.len());
    assert("websocket"@.len() != "http"@.len());
    assert("websocket"@.len() != "https"@.len());
    assert("udp"@.len() != "http"@.len());
    assert("udp"@.len() != "https"@.len());
}

/// A proxy runs exactly where no proxy of its name did and it was not refused; it can be
/// added once, and again once it was removed.
pub proof fn law_names_are_taken_once(
    manager: &mut ServerProxyManager,
    config: ProxyConfig,
    user: &str,
    name: &str,
    before: Option<String>,
    r: Result<StartAction, ProxyRefusal>,
    after: Option<String>,
)
    requires
        old(manager).wf(),
        name@ == config.name@,
        call_ensures(
            <ServerProxyManager as ProxyManager>::get_proxy_status,
            (&*old(manager), name),
            before,
        ),
        call_ensures(ServerProxyManager::add_proxy_for_user, (manager, config, user), r),
        call_ensures(
            <ServerProxyManager as ProxyManager>::get_proxy_status,
            (&*final(manager), name),
            after,
        ),
    ensures
        before is Some <==> (r is Err && r->Err_0 is AlreadyExists),
        r is Ok ==> after is Some && after->0@ == "running"@,
        r is Err ==> after is Some == before is Some,
{
}

/// A proxy without a port needs none, but for a UDP proxy, which is refused.
pub proof fn law_proxies_without_a_port(
    manager: &mut ServerProxyManager,
    config: ProxyConfig,
    user: &str,
    r: Result<StartAction, ProxyRefusal>,
)
    requires
        old(manager).wf(),
        config.remote_port is None,
        config.group is None,
        call_ensures(ServerProxyManager::add_proxy_for_user, (manager, config, user), r),
    ensures
        config.kind@ == "tcp"@ && r is Ok ==> r->Ok_0 is Nothing,
        config.kind@ == "udp"@ ==> r is Err,
        config.kind@ == "stcp"@ && r is Ok ==> r->Ok_0 is Nothing,
        config.kind@ == "xtcp"@ && r is Ok ==> r->Ok_0 is Nothing,
        config.kind@ == "stcp"@ || config.kind@ == "xtcp"@ ==> (r is Err
            ==> r->Err_0 is AlreadyExists),
{
    reveal_strlit("tcp");
    reveal_strlit("udp");
    reveal_strlit("http");
    reveal_strlit("https");
    reveal_strlit("websocket");
    reveal_strlit("stcp");
    reveal_strlit("xtcp");
    assert("udp"@[0] != "tcp"@[0]);
    assert("udp"@.len() != "http"@.len());
    assert("udp"@.len() != "https"@.len());
    assert("stcp"@.len() != "tcp"@.len());
    assert("xtcp"@.len() != "tcp"@.len());
    assert("stcp"@[0] != "http"@[0]);
    assert("xtcp"@[0] != "http"@[0]);
    assert("stcp"@.len() != "https"@.len());
    assert("xtcp"@.len() != "https"@.len());
    assert("stcp"@.len() != "websocket"@.len());
    assert("xtcp"@.len() != "websocket"@.len());
}

/// With a limit of so many ports each, a user's next TCP or UDP proxy is refused for the
/// limit exactly where that many of the user's proxies run that count; without a limit,
/// with a limit of 0, and for other kinds of proxies none is.
pub proof fn law_quota(
    manager: &mut ServerProxyManager,
    config: ProxyConfig,
    user: &str,
    r: Result<StartAction, ProxyRefusal>,
    mine: Set<Seq<char>>,
)
    requires
        old(manager).wf(),
        !old(manager).proxies().contains_key(config.name@),
        config.group is None,
        mine == old(manager).usage().dom().filter(
            |p: Seq<char>| old(manager).usage()[p] == user@,
        ),
        call_ensures(ServerProxyManager::add_proxy_for_user, (manager, config, user), r),
    ensures
        ({
            let limited = old(manager).limit() is Some && old(manager).limit()->0 > 0;
            let counts = config.kind@ == "tcp"@ || config.kind@ == "udp"@;
            &&& (r is Err && r->Err_0 is QuotaExceeded) == (limited && counts && mine.len()
                >= old(manager).limit()->0)
            &&& r is Ok && limited && counts ==> final(manager).usage().contains_key(config.name@)
                && final(manager).usage()[config.name@] == user@
            &&& r is Ok && !(limited && counts) ==> final(manager).usage() == old(manager).usage()
        }),
{
    reveal_strlit("http");
}

/// A visitor of a proxy goes to the run that registered it, and to that proxy; the plugin
/// of a proxy comes before that. Where the run cannot be reached, or there is none, the
/// visitor is told so.
pub proof fn law_visitors_go_to_the_owner<T>(
    target: String,
    has_plugin: bool,
    owners: NameMap<String>,
    controls: ControlManager<T>,
    owner: &str,
    channel: Option<&T>,
    route: VisitorRoute,
)
    requires
        call_ensures(
            route_to_target::<T>,
            (target, has_plugin, &owners, &controls),
            route,
        ),
        owners@.contains_key(target@) ==> owner@ == owners@[target@]@,
        call_ensures(ControlManager::<T>::get_msg_tx, (&controls, owner), channel),
    ensures
        has_plugin ==> (route matches VisitorRoute::Plugin { target: t } && t@ == target@),
        !has_plugin && owners@.contains_key(target@) && channel is Some ==> (
        route matches VisitorRoute::WorkConn { target: t, run_id } && t@ == target@ && run_id@
            == owners@[target@]@),
        !has_plugin && !(owners@.contains_key(target@) && channel is Some) ==> (
        route matches VisitorRoute::Unreachable { target: t, text } && t@ == target@
            && "HTTP/1.1 503 Service Unavailable\r\n"@.is_prefix_of(text@)),
{
    assert(text_values(owners@).dom() =~= owners@.dom());
    reveal_strlit("HTTP/1.1 503 Service Unavailable\r\n");
    reveal_strlit(
        "HTTP/1.1 503 Service Unavailable\r\nContent-Type: text/plain\r\nContent-Length: 30\r\n\r\nProxy not registered by any client",
    );
    reveal_strlit(
        "HTTP/1.1 503 Service Unavailable\r\nContent-Type: text/plain\r\nContent-Length: 37\r\n\r\nMessage channel not found",
    );
    assert(crate::vhost::no_owner().take(34) =~= "HTTP/1.1 503 Service Unavailable\r\n"@);
    assert(crate::vhost::no_channel().take(34) =~= "HTTP/1.1 503 Service Unavailable\r\n"@);
    assert("HTTP/1.1 503 Service Unavailable\r\n"@.is_prefix_of(crate::vhost::no_owner()));
    assert("HTTP/1.1 503 Service Unavailable\r\n"@.is_prefix_of(crate::vhost::no_channel()));
}

/// A request for a domain of a proxy goes to that proxy, by a work connection of the run
/// that registered it.
pub proof fn law_requests_reach_the_proxy<C>(
    router: &mut HttpVhostRouter,
    name: String,
    domains: Vec<String>,
    config: Arc<ProxyConfig>,
    k: int,
    info: HttpRequestInfo,
    owners: NameMap<String>,
    controls: ControlManager<C>,
    owner: &str,
    channel: Option<&C>,
    answer: VhostAnswer,
)
    requires
        call_ensures(HttpVhostRouter::register_proxy, (router, name, domains, config), ()),
        0 <= k < domains@.len(),
        info.host@ == domains@[k]@,
        owners@.contains_key(name@) ==> owner@ == owners@[name@]@,
        call_ensures(ControlManager::<C>::get_msg_tx, (&controls, owner), channel),
        call_ensures(
            answer_parsed_request::<C>,
            (&info, &*final(router), &owners, &controls),
            answer,
        ),
    ensures
        owners@.contains_key(name@) && channel is Some ==> (answer matches VhostAnswer::Forward {
            proxy_name,
            run_id,
        } && proxy_name@ == name@ && run_id@ == owners@[name@]@),
        !(owners@.contains_key(name@) && channel is Some) ==> (
        answer matches VhostAnswer::Unreachable { proxy_name, .. } && proxy_name@ == name@),
{
    assert(text_values(owners@).dom() =~= owners@.dom());
    assert(texts(domains@)[k] == info.host@);
    assert(texts(domains@).contains(info.host@));
    let proxy = choose|proxy: Option<Seq<char>>| #[trigger]
        crate::vhost::routes_to(final(router).domains(), info.host@, proxy)
            && crate::vhost::answer_for(
            info.host@,
            proxy,
            text_values(owners@),
            controls.reachable(),
            answer,
        );
    law_registered_domain_is_served(
        old(router).domains(),
        texts(domains@),
        name@,
        info.host@,
        proxy,
    );
}

/// A request for a host that nobody serves is answered with 404 and the host.
pub proof fn law_unknown_hosts_are_told_so<C>(
    router: HttpVhostRouter,
    info: HttpRequestInfo,
    host: &str,
    owners: NameMap<String>,
    controls: ControlManager<C>,
    answer: VhostAnswer,
)
    requires
        host@ == info.host@,
        call_ensures(HttpVhostRouter::find_proxy_by_host, (&router, host), None::<String>),
        call_ensures(
            answer_parsed_request::<C>,
            (&info, &router, &owners, &controls),
            answer,
        ),
    ensures
        answer matches VhostAnswer::Respond(text) && ({
            let body = "Proxy not found for host: "@ + host@;
            text@ == "HTTP/1.1 404 Not Found\r\nContent-Type: text/plain\r\nContent-Length: "@
                + decimal(encode_utf8(body).len()) + "\r\n\r\n"@ + body
        }),
{
    let proxy = choose|proxy: Option<Seq<char>>| #[trigger]
        crate::vhost::routes_to(router.domains(), info.host@, proxy) && crate::vhost::answer_for(
            info.host@,
            proxy,
            text_values(owners@),
            controls.reachable(),
            answer,
        );
    if proxy is Some {
        let m = router.domains();
        if m.contains_key(host@) {
            assert(host@.is_suffix_of(host@)) by {
                assert(host@.subrange(0, host@.len() as int) =~= host@);
            }
        } else {
            let d = choose|d: Seq<char>| #[trigger]
                crate::vhost::ends_in_domain(m, host@, d, proxy->0);
            assert(m.contains_key(d));
        }
    }
}

/// The settings of a client are searched by name: what is found is the first proxy of
/// that name, and nothing is found exactly where there is none.
pub proof fn law_first_of_the_name_is_found(
    config: ClientConfig,
    name: &str,
    found: Option<&ProxyConfig>,
    i: int,
)
    requires
        call_ensures(find_proxy, (&config, name), found),
        0 <= i <= config.proxies@.len(),
        forall|j: int| 0 <= j < i ==> (#[trigger] config.proxies@[j]).name@ != name@,
        i < config.proxies@.len() ==> config.proxies@[i].name@ == name@,
    ensures
        i < config.proxies@.len() ==> found is Some && *found->0 == config.proxies@[i],
        i == config.proxies@.len() ==> found is None,
{
    lemma_first(config.proxies@, name@, i);
}

pub proof fn lemma_first(proxies: Seq<ProxyConfig>, name: Seq<char>, i: int)
    requires
        0 <= i <= proxies.len(),
        forall|j: int| 0 <= j < i ==> (#[trigger] proxies[j]).name@ != name,
        i < proxies.len() ==> proxies[i].name@ == name,
    ensures
        crate::client::proxy_index(proxies, name) == i,
    decreases proxies.len(),
{
    if i > 0 {
        assert(proxies[0].name@ != name);
        assert forall|j: int| 0 <= j < i - 1 implies (#[trigger] proxies.drop_first()[j]).name@
            != name by {
            assert(proxies[j + 1].name@ != name);
        }
        lemma_first(proxies.drop_first(), name, i - 1);
    }
}

/// The secret of a proxy is the one of its settings, and a proxy that is not there has
/// none.
pub proof fn law_secret_is_that_of_the_settings(
    manager: &mut ServerProxyManager,
    config: ProxyConfig,
    user: &str,
    action: StartAction,
    name: &str,
    secret: Option<&str>,
)
    requires
        old(manager).wf(),
        call_ensures(
            ServerProxyManager::add_proxy_for_user,
            (manager, config, user),
            Ok(action),
        ),
        name@ == config.name@,
        call_ensures(ServerProxyManager::secret_of, (&*final(manager), name), secret),
    ensures
        secret is Some == config.secret_key is Some,
        secret is Some ==> secret->0@ == config.secret_key->0@,
{
    assert(crate::proxies::text_of(secret) == final(manager).secret(name@));
}

/// A proxy that was added is listed with its settings.
pub proof fn law_added_proxies_are_listed(
    manager: &mut ServerProxyManager,
    config: ProxyConfig,
    user: &str,
    action: StartAction,
    list: Vec<Arc<ProxyConfig>>,
)
    requires
        old(manager).wf(),
        call_ensures(
            ServerProxyManager::add_proxy_for_user,
            (manager, config, user),
            Ok(action),
        ),
        call_ensures(ServerProxyManager::list_proxies, (&*final(manager),), list),
    ensures
        list@.contains(Arc::new(config)),
{
    let all = final(manager).proxies();
    assert(all.contains_key(config.name@));
    assert(all[config.name@] == Arc::new(config));
    assert(all.values().contains(all[config.name@]));
    assert(list@.to_set().contains(Arc::new(config)));
}

/// A proxy whose listener could not be opened is not known any more, and its name, its
/// count and its group are as they were before it was added.
pub proof fn law_failed_proxies_are_taken_back(
    m0: &mut ServerProxyManager,
    m1: &mut ServerProxyManager,
    config: ProxyConfig,
    user: &str,
    action: StartAction,
    name: &str,
    status: Option<String>,
)
    requires
        old(m0).wf(),
        call_ensures(ServerProxyManager::add_proxy_for_user, (m0, config, user), Ok(action)),
        action is BindTcp || action is BindUdp || action is BindWebsocket,
        *old(m1) == *final(m0),
        name@ == config.name@,
        call_ensures(ServerProxyManager::start_failed, (m1, name), ()),
        call_ensures(
            <ServerProxyManager as ProxyManager>::get_proxy_status,
            (&*final(m1), name),
            status,
        ),
    ensures
        status is None,
        final(m1).proxies() == old(m0).proxies(),
        final(m1).usage() == old(m0).usage(),
        final(m1).groups() == old(m0).groups(),
        final(m1).domains() == old(m0).domains(),
{
    crate::proxies::law_failed_start_leaves_nothing(
        *old(m0),
        Arc::new(config),
        Some(user@),
        action,
        *final(m0),
        *final(m1),
    );
}

/// A proxy that was added and removed leaves the ports of its user as they were; a removed
/// proxy of its own listener closes it.
pub proof fn law_removed_proxies_give_back(
    m0: &mut ServerProxyManager,
    m1: &mut ServerProxyManager,
    config: ProxyConfig,
    user: &str,
    action: StartAction,
    name: &str,
    stop: StopAction,
)
    requires
        old(m0).wf(),
        !old(m0).usage().contains_key(config.name@),
        call_ensures(ServerProxyManager::add_proxy_for_user, (m0, config, user), Ok(action)),
        *old(m1) == *final(m0),
        name@ == config.name@,
        call_ensures(<ServerProxyManager as ProxyManager>::remove_proxy, (m1, name), stop),
    ensures
        final(m1).usage() == old(m0).usage(),
        final(m1).proxies() == old(m0).proxies(),
        config.group is None ==> stop is CloseOwn,
{
    assert(final(m1).usage() =~= old(m0).usage());
    assert(final(m1).proxies() =~= old(m0).proxies());
}

/// A server that starts has no proxies and no clients, and the rules of its settings: the
/// ports that it allows and how many of them each user may hold.
pub proof fn law_server_starts_with_its_rules<C, T>(
    config: ServerConfig,
    path: Option<String>,
    server: Server,
    now: u64,
    state: ServerState<C, T>,
    name: &str,
    status: Option<String>,
    channel: Option<&T>,
)
    requires
        call_ensures(Server::new, (config, path), Ok(server)),
        call_ensures(Server::initial_state::<C, T>, (&server, now), state),
        call_ensures(
            <ServerProxyManager as ProxyManager>::get_proxy_status,
            (&state.proxies, name),
            status,
        ),
        call_ensures(ControlManager::<T>::get_msg_tx, (&state.controls, name), channel),
    ensures
        state.wf(),
        status is None,
        channel is None,
        state.proxies.allow() == config.allow_ports@,
        state.proxies.limit() == config.max_ports_per_user,
        state.pools.size() == config.transport.pool_count,
        !state.owners@.contains_key(name@),
{
    assert(!state.controls.reachable().contains(name@));
}

/// Visitors that are set up are kept by name until they are removed.
pub proof fn law_visitors_are_kept(
    fresh: ClientVisitorManager,
    m0: &mut ClientVisitorManager,
    m1: &mut ClientVisitorManager,
    config: VisitorConfig,
    name: &str,
    one: Vec<&VisitorConfig>,
    none: Vec<&VisitorConfig>,
)
    requires
        call_ensures(ClientVisitorManager::new, (), fresh),
        *old(m0) == fresh,
        call_ensures(<ClientVisitorManager as VisitorManager>::add_visitor, (m0, config), ()),
        call_ensures(ClientVisitorManager::list_visitors, (&*final(m0),), one),
        *old(m1) == *final(m0),
        name@ == config.name@,
        call_ensures(<ClientVisitorManager as VisitorManager>::remove_visitor, (m1, name), ()),
        call_ensures(ClientVisitorManager::list_visitors, (&*final(m1),), none),
    ensures
        one@.contains(&config),
        none@.len() == 0,
{
    let order = final(m0).order();
    assert(order.to_set().contains(config.name@));
    let k = order.index_of(config.name@);
    assert(one@[k] == &config);
    let rest = final(m1).order();
    if rest.len() > 0 {
        assert(rest.to_set().contains(rest[0]));
        assert(final(m1).visitors().dom().contains(rest[0]));
    }
}

/// A visitor of a listener that is not shared goes where a visitor of its proxy goes.
pub proof fn law_own_listeners_lead_to_their_proxy<C, T>(
    state: &mut ServerState<C, T>,
    name: &str,
    target: String,
    has_plugin: bool,
    direct: VisitorRoute,
    route: VisitorRoute,
)
    requires
        old(state).wf(),
        target@ == name@,
        call_ensures(
            route_to_target::<T>,
            (target, has_plugin, &old(state).owners, &old(state).controls),
            direct,
        ),
        call_ensures(
            route_visitor::<C, T>,
            (state, name, None::<u16>, has_plugin),
            route,
        ),
    ensures
        match (direct, route) {
            (VisitorRoute::Plugin { target: a }, VisitorRoute::Plugin { target: b }) => a@ == b@,
            (
                VisitorRoute::WorkConn { target: a, run_id: r },
                VisitorRoute::WorkConn { target: b, run_id: s },
            ) => a@ == b@ && r@ == s@,
            (
                VisitorRoute::Unreachable { target: a, text: t },
                VisitorRoute::Unreachable { target: b, text: u },
            ) => a@ == b@ && t@ == u@,
            _ => false,
        },
        *final(state) == *old(state),
{
}

/// A proxy of a kind that is not known, and an `http` or `https` proxy without domains,
/// needs nothing.
pub proof fn law_other_proxies_need_nothing(
    manager: &mut ServerProxyManager,
    config: ProxyConfig,
    user: &str,
    action: StartAction,
)
    requires
        old(manager).wf(),
        call_ensures(
            ServerProxyManager::add_proxy_for_user,
            (manager, config, user),
            Ok(action),
        ),
        config.kind@ != "tcp"@ && config.kind@ != "udp"@ && config.kind@ != "websocket"@,
        (config.kind@ == "http"@ || config.kind@ == "https"@) ==> forall|d: Seq<char>|
            !#[trigger] names_host(config, d),
    ensures
        action is Nothing,
        final(manager).domains() == old(manager).domains(),
        final(manager).groups() == old(manager).groups(),
{
    let all = crate::proxies::proxy_domains(config);
    if (config.kind@ == "http"@ || config.kind@ == "https"@) && all.len() > 0 {
        lemma_host_is_a_domain(config, all[0]);
        assert(all.contains(all[0]));
        assert(names_host(config, all[0]));
    }
}

/// What a server adds for itself counts for nobody, and is never over a limit.
pub proof fn law_own_proxies_do_not_count(
    manager: &mut ServerProxyManager,
    config: ProxyConfig,
    r: Result<StartAction, ProxyRefusal>,
)
    requires
        old(manager).wf(),
        call_ensures(<ServerProxyManager as ProxyManager>::add_proxy, (manager, config), r),
    ensures
        r matches Err(e) ==> !(e is QuotaExceeded),
        final(manager).usage() == old(manager).usage(),
{
}

/// A proxy with domains is known to the routing table with its settings, until its domains
/// are taken away.
pub proof fn law_routed_proxies_keep_their_settings(
    r0: &mut HttpVhostRouter,
    r1: &mut HttpVhostRouter,
    name: String,
    key: &str,
    domains: Vec<String>,
    config: Arc<ProxyConfig>,
    found: Option<&Arc<ProxyConfig>>,
    gone: Option<&Arc<ProxyConfig>>,
)
    requires
        name@ == key@,
        call_ensures(HttpVhostRouter::register_proxy, (r0, name, domains, config), ()),
        call_ensures(HttpVhostRouter::get_proxy_config, (&*final(r0), key), found),
        *old(r1) == *final(r0),
        call_ensures(HttpVhostRouter::unregister_proxy, (r1, key), ()),
        call_ensures(HttpVhostRouter::get_proxy_config, (&*final(r1), key), gone),
    ensures
        found == Some(&config),
        gone is None,
{
}

/// Taking the domains of one proxy away leaves those of others: a host that another proxy
/// has as it stands still goes to that one.
pub proof fn law_other_domains_stay(
    r0: &mut HttpVhostRouter,
    r1: &mut HttpVhostRouter,
    name: String,
    domains: Vec<String>,
    config: Arc<ProxyConfig>,
    other: &str,
    host: &str,
    k: int,
    found: Option<String>,
)
    requires
        other@ != name@,
        call_ensures(HttpVhostRouter::register_proxy, (r0, name, domains, config), ()),
        0 <= k < domains@.len(),
        domains@[k]@ == host@,
        *old(r1) == *final(r0),
        call_ensures(HttpVhostRouter::unregister_proxy, (r1, other), ()),
        call_ensures(HttpVhostRouter::find_proxy_by_host, (&*final(r1), host), found),
    ensures
        found is Some && found->0@ == name@,
{
    let before = final(r0).domains();
    assert(texts(domains@)[k] == host@);
    assert(texts(domains@).contains(host@));
    assert(crate::vhost::routes_to(before, host@, Some(before[host@])) || !before.contains_key(
        host@,
    ));
    lemma_domain_given(old(r0).domains(), texts(domains@), name@, host@);
    let after = final(r1).domains();
    assert(after.contains_key(host@) && after[host@] == name@);
    assert(host@.is_suffix_of(host@)) by {
        assert(host@.subrange(0, host@.len() as int) =~= host@);
    }
}

proof fn lemma_domain_given(
    m: Map<Seq<char>, Seq<char>>,
    domains: Seq<Seq<char>>,
    name: Seq<char>,
    d: Seq<char>,
)
    requires
        domains.contains(d),
    ensures
        crate::vhost::with_domains(m, domains, name).contains_key(d),
        crate::vhost::with_domains(m, domains, name)[d] == name,
    decreases domains.len(),
{
    if d != domains.last() {
        let k = domains.index_of(d);
        assert(domains.drop_last()[k] == d);
        lemma_domain_given(m, domains.drop_last(), name, d);
    }
}

/// The proxy of a work connection is the one that its name finds; without one the work
/// connection is refused.
pub proof fn law_work_connections_have_a_proxy(
    config: ClientConfig,
    name: &str,
    found: Option<&ProxyConfig>,
    r: Result<&ProxyConfig, ClientError>,
)
    requires
        call_ensures(find_proxy, (&config, name), found),
        call_ensures(work_conn_proxy, (&config, name), r),
    ensures
        found is Some == r is Ok,
        found is Some ==> *found->0 == *r->Ok_0,
        r matches Err(e) ==> (e matches ClientError::Other(t) && t@ == "Proxy config not found: "@
            + name@),
{
}

/// Starting a proxy routes its domains, and binds the port that it asks for where that is
/// allowed; it changes nothing else of what the server keeps.
pub proof fn law_starting_a_proxy(
    manager: &mut ServerProxyManager,
    config: ProxyConfig,
    ranges: &[PortRange],
    port: u16,
    allowed: bool,
    r: Result<StartAction, ProxyRefusal>,
    router: &HttpVhostRouter,
    host: &str,
    found: Option<String>,
)
    requires
        old(manager).wf(),
        ranges@ == old(manager).allow(),
        call_ensures(port_allowed, (port, ranges), allowed),
        call_ensures(ServerProxyManager::start_proxy, (manager, &Arc::new(config)), r),
        call_ensures(ServerProxyManager::get_http_vhost_router, (&*final(manager),), router),
        call_ensures(HttpVhostRouter::find_proxy_by_host, (router, host), found),
    ensures
        (config.kind@ == "http"@ || config.kind@ == "https"@) && names_host(config, host@)
            ==> r is Ok && found is Some && found->0@ == config.name@,
        config.kind@ == "tcp"@ && config.remote_port == Some(port) && config.group is None
            ==> r is Ok == allowed,
        config.kind@ == "udp"@ && config.remote_port == Some(port) ==> r is Ok == allowed,
        final(manager).proxies() == old(manager).proxies(),
        final(manager).usage() == old(manager).usage(),
{
    reveal_strlit("tcp");
    reveal_strlit("udp");
    reveal_strlit("http");
    reveal_strlit("https");
    assert("tcp"@.len() != "http"@.len());
    assert("tcp"@.len() != "https"@.len());
    assert("udp"@.len() != "http"@.len());
    assert("udp"@.len() != "https"@.len());
    assert("udp"@[0] != "tcp"@[0]);
    lemma_host_is_a_domain(config, host@);
    if (config.kind@ == "http"@ || config.kind@ == "https"@) && names_host(config, host@) {
        law_registered_domain_is_served(
            old(manager).domains(),
            crate::proxies::proxy_domains(config),
            config.name@,
            host@,
            match found {
                Some(p) => Some(p@),
                None => None,
            },
        );
    }
}

/// A proxy that is stopped has no domains any more, and the listener that it had alone is
/// closed; it stays registered. Its port no longer counts once that is released.
pub proof fn law_stopping_a_proxy(
    m0: &mut ServerProxyManager,
    m1: &mut ServerProxyManager,
    name: &str,
    action: StopAction,
    router: &HttpVhostRouter,
    host: &str,
    found: Option<String>,
)
    requires
        old(m0).wf(),
        call_ensures(ServerProxyManager::stop_proxy, (m0, name), action),
        call_ensures(ServerProxyManager::get_http_vhost_router, (&*final(m0),), router),
        call_ensures(HttpVhostRouter::find_proxy_by_host, (router, host), found),
        *old(m1) == *final(m0),
        call_ensures(ServerProxyManager::release_user_quota, (m1, name), ()),
    ensures
        found is Some ==> found->0@ != name@,
        old(m0).proxies().contains_key(name@) && old(m0).proxies()[name@].group is None
            ==> action is CloseOwn,
        final(m0).proxies() == old(m0).proxies(),
        final(m0).usage() == old(m0).usage(),
        !final(m1).usage().contains_key(name@),
        forall|p: Seq<char>|
            p != name@ ==> final(m1).usage().contains_key(p) == #[trigger] old(
                m0).usage().contains_key(p),
        final(m1).proxies() == old(m0).proxies(),
{
    law_unregistered_proxy_is_unreachable(
        old(m0).domains(),
        name@,
        host@,
        match found {
            Some(p) => Some(p@),
            None => None,
        },
    );
}

/// Adding a proxy for a user, or for nobody, comes to the same however it is asked for.
pub proof fn law_ways_to_add_a_proxy(
    m0: &mut ServerProxyManager,
    m1: &mut ServerProxyManager,
    config: ProxyConfig,
    user: &str,
    r0: Result<StartAction, ProxyRefusal>,
    r1: Result<StartAction, ProxyRefusal>,
)
    requires
        old(m0).wf(),
        *old(m1) == *old(m0),
        config.group is None,
        call_ensures(ServerProxyManager::add_proxy_for_user, (m0, config, user), r0),
        call_ensures(
            ServerProxyManager::add_proxy_inner,
            (m1, Arc::new(config), Some(user)),
            r1,
        ),
    ensures
        r0 is Ok == r1 is Ok,
        final(m0).proxies() == final(m1).proxies(),
        final(m0).usage() == final(m1).usage(),
        final(m0).domains() == final(m1).domains(),
{
}

} // verus!
