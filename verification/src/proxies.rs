//! The proxies of a server: which of them may start, what starting and stopping
//! them takes, and how many ports each user holds.
use crate::config::{PortRange, ProxyConfig};
use crate::groups::{
    group_listener_key, join_outcome, spec_listener_key, without, GroupError, GroupRegistry,
    GroupView,
};
use crate::message::ProxyManager;
use crate::names::NameMap;
use crate::text::{decimal, push_decimal, same, texts};
use crate::vhost::{with_domains, without_proxy, HttpVhostRouter};
use std::sync::Arc;
use vstd::prelude::*;
use vstd::string::*;

verus! {

/// Whether a range holds a port. A range with only one end holds nothing.
pub open spec fn range_holds(range: PortRange, port: u16) -> bool {
    ||| range.single == Some(port)
    ||| (range.start matches Some(start) && range.end matches Some(end) && start <= port <= end)
}

/// Whether a port is in one of the allowed ranges.
pub open spec fn spec_port_allowed(port: u16, ranges: Seq<PortRange>) -> bool {
    exists|i: int| 0 <= i < ranges.len() && range_holds(#[trigger] ranges[i], port)
}

/// Whether a port is in one of the allowed ranges.
pub fn port_allowed(port: u16, ranges: &[PortRange]) -> (b: bool)
    ensures
        b == spec_port_allowed(port, ranges@),
{
    let mut i: usize = 0;
    while i < ranges.len()
        invariant
            i <= ranges@.len(),
            forall|k: int| 0 <= k < i ==> !range_holds(#[trigger] ranges@[k], port),
        decreases ranges@.len() - i,
    {
        let range: PortRange = ranges[i];
        if let Some(single) = range.single {
            if port == single {
                assert(range_holds(ranges@[i as int], port));
                return true;
            }
        }
        if let (Some(start), Some(end)) = (range.start, range.end) {
            if port >= start && port <= end {
                assert(range_holds(ranges@[i as int], port));
                return true;
            }
        }
        i = i + 1;
    }
    false
}

/// Why a proxy is not started.
#[derive(Debug)]
pub enum ProxyRefusal {
    AlreadyExists { name: String },
    GroupNotTcp { name: String },
    GroupWithPlugin { name: String },
    GroupWithoutPort { name: String, group: String },
    QuotaExceeded { name: String, user: String, limit: usize },
    PortNotAllowed { port: u16 },
    Group { error: GroupError },
    UdpWithoutPort,
}

impl ProxyRefusal {
    /// The text that describes a refusal.
    pub open spec fn spec_message(self) -> Seq<char> {
        match self {
            ProxyRefusal::AlreadyExists { name } => "proxy ["@ + name@ + "] already exists"@,
            ProxyRefusal::GroupNotTcp { name } => "proxy ["@ + name@
                + "] rejected: group is only supported for tcp proxies"@,
            ProxyRefusal::GroupWithPlugin { name } => "proxy ["@ + name@
                + "] rejected: group and plugin cannot be used together"@,
            ProxyRefusal::GroupWithoutPort { name, group } => "proxy ["@ + name@
                + "] rejected: group ["@ + group@ + "] requires remote_port"@,
            ProxyRefusal::QuotaExceeded { name, user, limit } => "proxy ["@ + name@
                + "] rejected: user ["@ + user@ + "] exceeds max_ports_per_user limit "@ + decimal(
                limit as nat,
            ),
            ProxyRefusal::PortNotAllowed { port } => "Port "@ + decimal(port as nat)
                + " is not in the allowed ports list"@,
            ProxyRefusal::Group { error } => error.spec_message(),
            ProxyRefusal::UdpWithoutPort => "UDP proxy requires remote_port"@,
        }
    }

    /// The text that describes the refusal.
    pub fn message(&self) -> (text: String)
        ensures
            text@ == self.spec_message(),
    {
        match self {
            ProxyRefusal::AlreadyExists { name } => {
                let mut out: String = "proxy [".to_string();
                out.append(name.as_str());
                out.append("] already exists");
                out
            },
            ProxyRefusal::GroupNotTcp { name } => {
                let mut out: String = "proxy [".to_string();
                out.append(name.as_str());
                out.append("] rejected: group is only supported for tcp proxies");
                out
            },
            ProxyRefusal::GroupWithPlugin { name } => {
                let mut out: String = "proxy [".to_string();
                out.append(name.as_str());
                out.append("] rejected: group and plugin cannot be used together");
                out
            },
            ProxyRefusal::GroupWithoutPort { name, group } => {
                let mut out: String = "proxy [".to_string();
                out.append(name.as_str());
                out.append("] rejected: group [");
                out.append(group.as_str());
                out.append("] requires remote_port");
                out
            },
            ProxyRefusal::QuotaExceeded { name, user, limit } => {
                let mut out: String = "proxy [".to_string();
                out.append(name.as_str());
                out.append("] rejected: user [");
                out.append(user.as_str());
                out.append("] exceeds max_ports_per_user limit ");
                push_decimal(&mut out, *limit as u64);
                out
            },
            ProxyRefusal::PortNotAllowed { port } => {
                let mut out: String = "Port ".to_string();
                push_decimal(&mut out, *port as u64);
                out.append(" is not in the allowed ports list");
                out
            },
            ProxyRefusal::Group { error } => error.message(),
            ProxyRefusal::UdpWithoutPort => "UDP proxy requires remote_port".to_string(),
        }
    }
}

/// What has to be done for a proxy that may start.
#[derive(Debug)]
pub enum StartAction {
    /// Nothing: the proxy needs no port, or its kind is not known.
    Nothing,
    /// Its domains are routed from now on.
    Routed,
    /// It shares the listener of its group.
    Shared,
    /// A TCP listener on this port, kept under this name; `grouped` where its
    /// connections go to the members of a group in turn.
    BindTcp { port: u16, key: String, grouped: bool },
    /// A UDP socket on this port.
    BindUdp { port: u16 },
    /// A listener on this port whose connections are WebSockets.
    BindWebsocket { port: u16 },
}

/// What has to be done for a proxy that stops.
#[derive(Debug)]
pub enum StopAction {
    /// Its group goes on with the same listener.
    KeepShared,
    /// The listener of its group, kept under this name, is closed.
    CloseShared { key: String },
    /// Its own listener or socket is closed.
    CloseOwn,
}

/// The domains of a proxy: its own, then its subdomain.
pub open spec fn proxy_domains(c: ProxyConfig) -> Seq<Seq<char>> {
    (match c.custom_domains {
        Some(list) => texts(list@),
        None => seq![],
    }) + (match c.subdomain {
        Some(s) => seq![s@],
        None => seq![],
    })
}

/// The key of a proxy's group; empty where none is given.
pub open spec fn proxy_group_key(c: ProxyConfig) -> Seq<char> {
    match c.group_key {
        Some(k) => k@,
        None => seq![],
    }
}

/// What starting a proxy does to the groups and the routed domains, and what it
/// answers.
pub open spec fn start_outcome(
    c: Arc<ProxyConfig>,
    allow: Seq<PortRange>,
    groups: Map<u16, GroupView>,
    domains: Map<Seq<char>, Seq<char>>,
    routed: Map<Seq<char>, Arc<ProxyConfig>>,
    r: Result<StartAction, ProxyRefusal>,
    groups_after: Map<u16, GroupView>,
    domains_after: Map<Seq<char>, Seq<char>>,
    routed_after: Map<Seq<char>, Arc<ProxyConfig>>,
) -> bool {
    let kept_domains = domains_after == domains && routed_after == routed;
    let kept = kept_domains && groups_after == groups;
    if c.kind@ == "tcp"@ {
        match c.remote_port {
            None => kept && r matches Ok(StartAction::Nothing),
            Some(port) => if !spec_port_allowed(port, allow) {
                kept && r == Err::<StartAction, ProxyRefusal>(
                    ProxyRefusal::PortNotAllowed { port },
                )
            } else {
                match c.group {
                    None => kept && (r matches Ok(StartAction::BindTcp { port: p, key, grouped })
                        && p == port && key@ == c.name@ && !grouped),
                    Some(group) => {
                        &&& kept_domains
                        &&& exists|j: Result<bool, GroupError>| #[trigger]
                            join_outcome(
                                groups,
                                group@,
                                proxy_group_key(*c),
                                port,
                                c.name@,
                                j,
                                groups_after,
                            ) && match j {
                                Ok(true) => r matches Ok(
                                    StartAction::BindTcp { port: p, key, grouped },
                                ) && p == port && key@ == spec_listener_key(port) && grouped,
                                Ok(false) => r matches Ok(StartAction::Shared),
                                Err(e) => r == Err::<StartAction, ProxyRefusal>(
                                    ProxyRefusal::Group { error: e },
                                ),
                            }
                    },
                }
            },
        }
    } else if c.kind@ == "http"@ || c.kind@ == "https"@ {
        &&& groups_after == groups
        &&& if proxy_domains(*c).len() > 0 {
            &&& r matches Ok(StartAction::Routed)
            &&& domains_after == with_domains(domains, proxy_domains(*c), c.name@)
            &&& routed_after == routed.insert(c.name@, c)
        } else {
            kept_domains && r matches Ok(StartAction::Nothing)
        }
    } else if c.kind@ == "udp"@ {
        &&& kept
        &&& match c.remote_port {
            None => r == Err::<StartAction, ProxyRefusal>(ProxyRefusal::UdpWithoutPort),
            Some(port) => if spec_port_allowed(port, allow) {
                r == Ok::<StartAction, ProxyRefusal>(StartAction::BindUdp { port })
            } else {
                r == Err::<StartAction, ProxyRefusal>(ProxyRefusal::PortNotAllowed { port })
            },
        }
    } else if c.kind@ == "websocket"@ {
        &&& kept
        &&& match c.remote_port {
            None => r matches Ok(StartAction::Nothing),
            Some(port) => if spec_port_allowed(port, allow) {
                r == Ok::<StartAction, ProxyRefusal>(StartAction::BindWebsocket { port })
            } else {
                r == Err::<StartAction, ProxyRefusal>(ProxyRefusal::PortNotAllowed { port })
            },
        }
    } else {
        kept && r matches Ok(StartAction::Nothing)
    }
}

/// The proxies whose ports count against a user.
pub open spec fn ports_of(usage: Map<Seq<char>, Seq<char>>, user: Seq<char>) -> Set<Seq<char>> {
    usage.dom().filter(|p: Seq<char>| usage[p] == user)
}

/// How many ports a user holds.
pub open spec fn port_count(usage: Map<Seq<char>, Seq<char>>, user: Seq<char>) -> nat {
    ports_of(usage, user).len()
}

/// Whether a proxy takes a port: only TCP and UDP proxies do.
pub open spec fn takes_port(c: ProxyConfig) -> bool {
    c.kind@ == "tcp"@ || c.kind@ == "udp"@
}

/// The limit that counts: none where it is not given or 0.
pub open spec fn effective_limit(limit: Option<usize>) -> Option<usize> {
    match limit {
        Some(n) => if n > 0 {
            Some(n)
        } else {
            None
        },
        None => None,
    }
}

/// Whether a proxy that `user` adds counts against the limit.
pub open spec fn is_counted(c: ProxyConfig, user: Option<Seq<char>>, limit: Option<usize>) -> bool {
    user is Some && takes_port(c) && effective_limit(limit) is Some
}

/// The view of an optional text.
pub open spec fn text_of(t: Option<&str>) -> Option<Seq<char>> {
    match t {
        Some(t) => Some(t@),
        None => None,
    }
}

proof fn lemma_count_insert(
    usage: Map<Seq<char>, Seq<char>>,
    name: Seq<char>,
    user: Seq<char>,
    other: Seq<char>,
)
    requires
        usage.dom().finite(),
        !usage.contains_key(name),
    ensures
        port_count(usage.insert(name, user), other) == port_count(usage, other) + (if other == user {
            1nat
        } else {
            0nat
        }),
{
    let after = usage.insert(name, user);
    if other == user {
        assert(ports_of(after, other) =~= ports_of(usage, other).insert(name));
    } else {
        assert(ports_of(after, other) =~= ports_of(usage, other));
    }
}

proof fn lemma_count_remove(
    usage: Map<Seq<char>, Seq<char>>,
    name: Seq<char>,
    other: Seq<char>,
)
    requires
        usage.dom().finite(),
        usage.contains_key(name),
    ensures
        port_count(usage, other) == port_count(usage.remove(name), other) + (if other
            == usage[name] {
            1nat
        } else {
            0nat
        }),
{
    let after = usage.remove(name);
    assert(after.insert(name, usage[name]) =~= usage);
    lemma_count_insert(after, name, usage[name], other);
}

/// The proxies of a server.
pub struct ServerProxyManager {
    proxies: NameMap<Arc<ProxyConfig>>,
    router: HttpVhostRouter,
    allow_ports: Vec<PortRange>,
    max_ports_per_user: Option<usize>,
    user_port_counts: NameMap<usize>,
    proxy_user_ports: NameMap<(String, usize)>,
    group_registry: GroupRegistry,
}

impl ServerProxyManager {
    /// The registered proxies.
    pub closed spec fn proxies(self) -> Map<Seq<char>, Arc<ProxyConfig>> {
        self.proxies@
    }

    /// The proxy of each routed domain.
    pub closed spec fn domains(self) -> Map<Seq<char>, Seq<char>> {
        self.router.domains()
    }

    /// The proxies with routed domains.
    pub closed spec fn routed(self) -> Map<Seq<char>, Arc<ProxyConfig>> {
        self.router.configs()
    }

    /// The groups, by port.
    pub closed spec fn groups(self) -> Map<u16, GroupView> {
        self.group_registry@
    }

    /// The user of each proxy that counts against the limit.
    pub closed spec fn usage(self) -> Map<Seq<char>, Seq<char>> {
        self.proxy_user_ports@.map_values(|e: (String, usize)| e.0@)
    }

    /// The allowed ranges of ports.
    pub closed spec fn allow(self) -> Seq<PortRange> {
        self.allow_ports@
    }

    /// The greatest number of ports of one user, as it was given.
    pub closed spec fn limit(self) -> Option<usize> {
        self.max_ports_per_user
    }

    /// The routing table.
    pub closed spec fn router(self) -> HttpVhostRouter {
        self.router
    }

    /// Nothing differs between the two.
    pub open spec fn same_state(self, other: Self) -> bool {
        &&& self.proxies() == other.proxies()
        &&& self.domains() == other.domains()
        &&& self.routed() == other.routed()
        &&& self.groups() == other.groups()
        &&& self.usage() == other.usage()
        &&& self.same_rules(other)
    }

    /// The allowed ports and the limit are the same.
    pub open spec fn same_rules(self, other: Self) -> bool {
        self.allow() == other.allow() && self.limit() == other.limit()
    }

    /// The counts of ports are those of the registered proxies, and no user holds
    /// more than the limit.
    pub closed spec fn wf(self) -> bool {
        &&& self.group_registry.wf()
        &&& self.usage().dom().finite()
        &&& self.usage().dom().subset_of(self.proxies().dom())
        &&& forall|p: Seq<char>|
            #![trigger self.proxy_user_ports@[p]]
            self.proxy_user_ports@.contains_key(p) ==> self.proxy_user_ports@[p].1 == 1
        &&& forall|u: Seq<char>|
            #![trigger self.user_port_counts@.contains_key(u)]
            self.user_port_counts@.contains_key(u) == (port_count(self.usage(), u) > 0)
        &&& forall|u: Seq<char>|
            #![trigger self.user_port_counts@[u]]
            self.user_port_counts@.contains_key(u) ==> self.user_port_counts@[u] == port_count(
                self.usage(),
                u,
            )
        &&& effective_limit(self.limit()) matches Some(n) ==> forall|u: Seq<char>| #[trigger]
            port_count(self.usage(), u) <= n
        &&& effective_limit(self.limit()) is None ==> self.usage().dom() == Set::<
            Seq<char>,
        >::empty()
    }

    /// No user ever holds more ports than the limit, and what counts is registered.
    pub proof fn law_no_user_exceeds_the_limit(self, user: Seq<char>)
        requires
            self.wf(),
        ensures
            effective_limit(self.limit()) matches Some(n) ==> port_count(self.usage(), user) <= n,
            self.usage().dom().subset_of(self.proxies().dom()),
    {
        assert(port_count(self.usage(), user) >= 0);
    }

    pub fn new(allow_ports: Vec<PortRange>, max_ports_per_user: Option<usize>) -> (m: Self)
        ensures
            m.wf(),
            m.proxies() == Map::<Seq<char>, Arc<ProxyConfig>>::empty(),
            m.domains() == Map::<Seq<char>, Seq<char>>::empty(),
            m.routed() == Map::<Seq<char>, Arc<ProxyConfig>>::empty(),
            m.groups() == Map::<u16, GroupView>::empty(),
            m.usage() == Map::<Seq<char>, Seq<char>>::empty(),
            m.allow() == allow_ports@,
            m.limit() == max_ports_per_user,
    {
        let m = ServerProxyManager {
            proxies: NameMap::new(),
            router: HttpVhostRouter::new(),
            allow_ports,
            max_ports_per_user,
            user_port_counts: NameMap::new(),
            proxy_user_ports: NameMap::new(),
            group_registry: GroupRegistry::default(),
        };
        assert(m.usage() =~= Map::<Seq<char>, Seq<char>>::empty());
        assert(m.usage().dom() =~= Set::<Seq<char>>::empty());
        assert forall|u: Seq<char>| #[trigger] port_count(m.usage(), u) == 0 by {
            assert(ports_of(m.usage(), u) =~= Set::<Seq<char>>::empty());
        }
        m
    }

    /// Which proxy serves a host.
    pub fn get_http_vhost_router(&self) -> (r: &HttpVhostRouter)
        ensures
            *r == self.router(),
            r.domains() == self.domains(),
            r.configs() == self.routed(),
    {
        &self.router
    }

    /// The domains of a proxy.
    fn domains_of(config: &ProxyConfig) -> (list: Vec<String>)
        ensures
            texts(list@) == proxy_domains(*config),
    {
        let mut list: Vec<String> = Vec::new();
        if let Some(custom) = &config.custom_domains {
            let mut i: usize = 0;
            while i < custom.len()
                invariant
                    i <= custom.len(),
                    texts(list@) == texts(custom@).take(i as int),
                decreases custom.len() - i,
            {
                let ghost before = texts(list@);
                list.push(custom[i].clone());
                assert(texts(list@) =~= before.push(custom@[i as int]@));
                i = i + 1;
            }
            assert(texts(custom@).take(i as int) == texts(custom@));
        }
        let ghost before = texts(list@);
        if let Some(subdomain) = &config.subdomain {
            list.push(subdomain.clone());
            assert(texts(list@) =~= before + seq![subdomain@]);
        }
        assert(texts(list@) =~= proxy_domains(*config));
        list
    }

    /// Decides whether a proxy may start and what that takes. Joins its group and
    /// routes its domains.
    pub fn start_proxy(&mut self, config: &Arc<ProxyConfig>) -> (r: Result<
        StartAction,
        ProxyRefusal,
    >)
        requires
            old(self).wf(),
        ensures
            final(self).wf(),
            start_outcome(
                *config,
                old(self).allow(),
                old(self).groups(),
                old(self).domains(),
                old(self).routed(),
                r,
                final(self).groups(),
                final(self).domains(),
                final(self).routed(),
            ),
            final(self).proxies() == old(self).proxies(),
            final(self).usage() == old(self).usage(),
            final(self).same_rules(*old(self)),
    {
        let kind: &str = config.kind.as_str();
        if same(kind, "tcp") {
            match config.remote_port {
                None => Ok(StartAction::Nothing),
                Some(port) => {
                    if !port_allowed(port, self.allow_ports.as_slice()) {
                        return Err(ProxyRefusal::PortNotAllowed { port });
                    }
                    match &config.group {
                        None => Ok(
                            StartAction::BindTcp {
                                port,
                                key: config.name.clone(),
                                grouped: false,
                            },
                        ),
                        Some(group) => {
                            let key: String = match &config.group_key {
                                Some(k) => k.clone(),
                                None => String::new(),
                            };
                            let joined = self.group_registry.join(
                                group.as_str(),
                                key.as_str(),
                                port,
                                config.name.as_str(),
                            );
                            assert(join_outcome(
                                old(self).groups(),
                                group@,
                                proxy_group_key(**config),
                                port,
                                config.name@,
                                joined,
                                self.groups(),
                            ));
                            match joined {
                                Ok(true) => Ok(
                                    StartAction::BindTcp {
                                        port,
                                        key: group_listener_key(port),
                                        grouped: true,
                                    },
                                ),
                                Ok(false) => Ok(StartAction::Shared),
                                Err(error) => Err(ProxyRefusal::Group { error }),
                            }
                        },
                    }
                },
            }
        } else if same(kind, "http") || same(kind, "https") {
            let domains: Vec<String> = Self::domains_of(config);
            assert(texts(domains@).len() == domains@.len());
            if domains.len() > 0 {
                self.router.register_proxy(config.name.clone(), domains, config.clone());
                Ok(StartAction::Routed)
            } else {
                Ok(StartAction::Nothing)
            }
        } else if same(kind, "udp") {
            match config.remote_port {
                None => Err(ProxyRefusal::UdpWithoutPort),
                Some(port) => {
                    if !port_allowed(port, self.allow_ports.as_slice()) {
                        return Err(ProxyRefusal::PortNotAllowed { port });
                    }
                    Ok(StartAction::BindUdp { port })
                },
            }
        } else if same(kind, "websocket") {
            match config.remote_port {
                None => Ok(StartAction::Nothing),
                Some(port) => {
                    if !port_allowed(port, self.allow_ports.as_slice()) {
                        return Err(ProxyRefusal::PortNotAllowed { port });
                    }
                    Ok(StartAction::BindWebsocket { port })
                },
            }
        } else {
            Ok(StartAction::Nothing)
        }
    }

    /// Takes the port of a proxy off the count of its user.
    pub fn release_user_quota(&mut self, proxy_name: &str)
        requires
            old(self).wf(),
        ensures
            final(self).wf(),
            final(self).usage() == old(self).usage().remove(proxy_name@),
            final(self).proxies() == old(self).proxies(),
            final(self).groups() == old(self).groups(),
            final(self).domains() == old(self).domains(),
            final(self).routed() == old(self).routed(),
            final(self).same_rules(*old(self)),
    {
        let ghost usage = self.usage();
        match self.proxy_user_ports.remove(proxy_name) {
            None => {
                assert(self.usage() =~= usage.remove(proxy_name@));
                assert(usage.remove(proxy_name@) =~= usage);
            },
            Some(entry) => {
                let (user, ports_used) = entry;
                let ghost counts = self.user_port_counts@;
                proof {
                    assert(old(self).proxy_user_ports@[proxy_name@].1 == 1);
                    assert(self.usage() =~= usage.remove(proxy_name@));
                    assert(usage[proxy_name@] == user@);
                    lemma_count_remove(usage, proxy_name@, user@);
                    assert(counts.contains_key(user@));
                    assert(counts[user@] == port_count(usage, user@));
                }
                if let Some(current) = self.user_port_counts.get(user.as_str()) {
                    let left: usize = *current - ports_used;
                    if left == 0 {
                        let _ = self.user_port_counts.remove(user.as_str());
                    } else {
                        self.user_port_counts.insert(user.clone(), left);
                    }
                }
                proof {
                    assert forall|u: Seq<char>| #[trigger]
                        self.user_port_counts@.contains_key(u) == (port_count(self.usage(), u)
                            > 0) by {
                        lemma_count_remove(usage, proxy_name@, u);
                        assert(counts.contains_key(u) == (port_count(usage, u) > 0));
                    }
                    assert forall|u: Seq<char>|
                        #![trigger self.user_port_counts@[u]]
                        self.user_port_counts@.contains_key(
                            u,
                        ) implies self.user_port_counts@[u] == port_count(self.usage(), u) by {
                        lemma_count_remove(usage, proxy_name@, u);
                        assert(counts.contains_key(u) == (port_count(usage, u) > 0));
                        assert(counts.contains_key(u) ==> counts[u] == port_count(usage, u));
                    }
                    assert forall|u: Seq<char>| #[trigger]
                        port_count(self.usage(), u) <= port_count(usage, u) by {
                        lemma_count_remove(usage, proxy_name@, u);
                    }
                    if effective_limit(self.limit()) is None {
                        assert(usage.dom().contains(proxy_name@));
                    }
                }
            },
        }
    }

    /// What adding a proxy answers and changes, where `user` is given for the proxies
    /// of a client.
    pub open spec fn added(
        before: Self,
        c: Arc<ProxyConfig>,
        user: Option<Seq<char>>,
        r: Result<StartAction, ProxyRefusal>,
        after: Self,
    ) -> bool {
        let counted = is_counted(*c, user, before.limit());
        if before.proxies().contains_key(c.name@) {
            after.same_state(before) && (r matches Err(ProxyRefusal::AlreadyExists { name }) && name@
                == c.name@)
        } else if c.group is Some && c.kind@ != "tcp"@ {
            after.same_state(before) && (r matches Err(ProxyRefusal::GroupNotTcp { name }) && name@
                == c.name@)
        } else if c.group is Some && c.plugin is Some {
            after.same_state(before) && (r matches Err(ProxyRefusal::GroupWithPlugin { name })
                && name@ == c.name@)
        } else if c.group is Some && c.remote_port is None {
            after.same_state(before) && (r matches Err(
                ProxyRefusal::GroupWithoutPort { name, group },
            ) && name@ == c.name@ && group@ == c.group->0@)
        } else if counted && port_count(before.usage(), user->0) >= effective_limit(
            before.limit(),
        )->0 {
            after.same_state(before) && (r matches Err(
                ProxyRefusal::QuotaExceeded { name, user: u, limit },
            ) && name@ == c.name@ && u@ == user->0 && Some(limit) == before.limit())
        } else {
            &&& start_outcome(
                c,
                before.allow(),
                before.groups(),
                before.domains(),
                before.routed(),
                r,
                after.groups(),
                after.domains(),
                after.routed(),
            )
            &&& after.same_rules(before)
            &&& r is Ok ==> after.proxies() == before.proxies().insert(c.name@, c)
            &&& r is Ok ==> after.usage() == (if counted {
                before.usage().insert(c.name@, user->0)
            } else {
                before.usage()
            })
            &&& r is Err ==> after.same_state(before)
        }
    }

    /// Adds a proxy, where its name is free, the rules on groups hold, its user may
    /// hold another port and it may start. Nothing is left of a proxy that is
    /// refused.
    pub fn add_proxy_inner(&mut self, config: Arc<ProxyConfig>, user: Option<&str>) -> (r: Result<
        StartAction,
        ProxyRefusal,
    >)
        requires
            old(self).wf(),
        ensures
            final(self).wf(),
            Self::added(*old(self), config, text_of(user), r, *final(self)),
    {
        if self.proxies.contains(config.name.as_str()) {
            return Err(ProxyRefusal::AlreadyExists { name: config.name.clone() });
        }
        if let Some(group) = &config.group {
            if !same(config.kind.as_str(), "tcp") {
                return Err(ProxyRefusal::GroupNotTcp { name: config.name.clone() });
            }
            if config.plugin.is_some() {
                return Err(ProxyRefusal::GroupWithPlugin { name: config.name.clone() });
            }
            if config.remote_port.is_none() {
                return Err(
                    ProxyRefusal::GroupWithoutPort {
                        name: config.name.clone(),
                        group: group.clone(),
                    },
                );
            }
        }
        let takes: bool = same(config.kind.as_str(), "tcp") || same(config.kind.as_str(), "udp");
        let mut counted: bool = false;
        if let (Some(user), Some(limit)) = (user, self.max_ports_per_user) {
            if takes && limit > 0 {
                counted = true;
                let current: usize = match self.user_port_counts.get(user) {
                    Some(n) => *n,
                    None => 0,
                };
                proof {
                    assert(self.user_port_counts@.contains_key(user@) == (port_count(
                        self.usage(),
                        user@,
                    ) > 0));
                    assert(current == port_count(self.usage(), user@));
                }
                if current >= limit {
                    return Err(
                        ProxyRefusal::QuotaExceeded {
                            name: config.name.clone(),
                            user: user.to_string(),
                            limit,
                        },
                    );
                }
            }
        }
        assert(counted == is_counted(*config, text_of(user), old(self).limit()));
        let ghost before = *self;
        match self.start_proxy(&config) {
            Err(e) => {
                proof {
                    Self::lemma_refused_start_changes_nothing(
                        config,
                        before.allow(),
                        before.groups(),
                        before.domains(),
                        before.routed(),
                        e,
                        self.groups(),
                        self.domains(),
                        self.routed(),
                    );
                }
                Err(e)
            },
            Ok(action) => {
                let ghost started = *self;
                let ghost usage = self.usage();
                let ghost counts = self.user_port_counts@;
                let name: String = config.name.clone();
                self.proxies.insert(config.name.clone(), config);
                if counted {
                    if let Some(user) = user {
                        let current: usize = match self.user_port_counts.get(user) {
                            Some(n) => *n,
                            None => 0,
                        };
                        proof {
                            assert(counts.contains_key(user@) == (port_count(usage, user@) > 0));
                            assert(current == port_count(usage, user@));
                        }
                        self.user_port_counts.insert(user.to_string(), current + 1);
                        let ghost key = name@;
                        self.proxy_user_ports.insert(name, (user.to_string(), 1));
                        proof {
                            let after = self.usage();
                            assert(after =~= usage.insert(key, user@));
                            assert forall|u: Seq<char>| #[trigger]
                                self.user_port_counts@.contains_key(u) == (port_count(after, u)
                                    > 0) by {
                                lemma_count_insert(usage, key, user@, u);
                                assert(counts.contains_key(u) == (port_count(usage, u) > 0));
                            }
                            assert forall|u: Seq<char>|
                                #![trigger self.user_port_counts@[u]]
                                self.user_port_counts@.contains_key(
                                    u,
                                ) implies self.user_port_counts@[u] == port_count(after, u) by {
                                lemma_count_insert(usage, key, user@, u);
                                assert(counts.contains_key(u) == (port_count(usage, u) > 0));
                                assert(counts.contains_key(u) ==> counts[u] == port_count(
                                    usage,
                                    u,
                                ));
                            }
                            assert forall|u: Seq<char>| #[trigger]
                                port_count(after, u) <= effective_limit(self.limit())->0 by {
                                lemma_count_insert(usage, key, user@, u);
                            }
                            assert forall|p: Seq<char>|
                                #![trigger self.proxy_user_ports@[p]]
                                self.proxy_user_ports@.contains_key(
                                    p,
                                ) implies self.proxy_user_ports@[p].1 == 1 by {
                                if p != key {
                                    assert(started.proxy_user_ports@[p].1 == 1);
                                }
                            }
                        }
                    }
                }
                Ok(action)
            },
        }
    }

    proof fn lemma_refused_start_changes_nothing(
        c: Arc<ProxyConfig>,
        allow: Seq<PortRange>,
        groups: Map<u16, GroupView>,
        domains: Map<Seq<char>, Seq<char>>,
        routed: Map<Seq<char>, Arc<ProxyConfig>>,
        e: ProxyRefusal,
        groups_after: Map<u16, GroupView>,
        domains_after: Map<Seq<char>, Seq<char>>,
        routed_after: Map<Seq<char>, Arc<ProxyConfig>>,
    )
        requires
            start_outcome(
                c,
                allow,
                groups,
                domains,
                routed,
                Err(e),
                groups_after,
                domains_after,
                routed_after,
            ),
        ensures
            groups_after == groups,
            domains_after == domains,
            routed_after == routed,
    {
    }

    /// What taking back a proxy changes, whose listener could not be opened: it is no
    /// longer registered or counted, and it leaves its group.
    pub open spec fn taken_back(before: Self, name: Seq<char>, after: Self) -> bool {
        &&& after.proxies() == before.proxies().remove(name)
        &&& after.usage() == before.usage().remove(name)
        &&& after.domains() == before.domains()
        &&& after.routed() == before.routed()
        &&& after.same_rules(before)
        &&& match before.group_port(name) {
            Some(port) => if before.groups().contains_key(port) {
                let left = without(before.groups()[port].members, name);
                if left.len() == 0 {
                    after.groups() == before.groups().remove(port)
                } else {
                    after.groups() == before.groups().insert(
                        port,
                        GroupView { members: left, ..before.groups()[port] },
                    )
                }
            } else {
                after.groups() == before.groups()
            },
            None => after.groups() == before.groups(),
        }
    }

    /// Takes a proxy back whose listener could not be opened.
    pub fn start_failed(&mut self, name: &str)
        requires
            old(self).wf(),
        ensures
            final(self).wf(),
            Self::taken_back(*old(self), name@, *final(self)),
    {
        if let Some(port) = self.shared_port(name) {
            let _ = self.group_registry.leave(port, name);
        }
        self.release_user_quota(name);
        let _ = self.proxies.remove(name);
    }

    /// The port of the group that a proxy belongs to.
    fn shared_port(&self, name: &str) -> (port: Option<u16>)
        ensures
            port == self.group_port(name@),
    {
        match self.proxies.get(name) {
            Some(c) => if c.group.is_some() {
                c.remote_port
            } else {
                None
            },
            None => None,
        }
    }

    /// The secret that visitors of a proxy have to sign with.
    pub open spec fn secret(self, name: Seq<char>) -> Option<Seq<char>> {
        if self.proxies().contains_key(name) {
            match self.proxies()[name].secret_key {
                Some(s) => Some(s@),
                None => None,
            }
        } else {
            None
        }
    }

    /// The secret that visitors of a proxy have to sign with; none where it has none.
    pub fn secret_of(&self, name: &str) -> (secret: Option<&str>)
        ensures
            text_of(secret) == self.secret(name@),
    {
        match self.proxies.get(name) {
            Some(c) => match &c.secret_key {
                Some(s) => Some(s.as_str()),
                None => None,
            },
            None => None,
        }
    }

    /// The port of the group that a proxy belongs to.
    pub open spec fn group_port(self, name: Seq<char>) -> Option<u16> {
        if self.proxies().contains_key(name) && self.proxies()[name].group is Some {
            self.proxies()[name].remote_port
        } else {
            None
        }
    }

    /// Stops a proxy: its domains are no longer routed, and it leaves its group. The
    /// last member of a group closes the listener of the group.
    pub fn stop_proxy(&mut self, name: &str) -> (action: StopAction)
        requires
            old(self).wf(),
        ensures
            final(self).wf(),
            final(self).domains() == without_proxy(old(self).domains(), name@),
            final(self).routed() == old(self).routed().remove(name@),
            final(self).proxies() == old(self).proxies(),
            final(self).usage() == old(self).usage(),
            final(self).same_rules(*old(self)),
            match old(self).group_port(name@) {
                None => action is CloseOwn && final(self).groups() == old(self).groups(),
                Some(port) => if !old(self).groups().contains_key(port) {
                    action is KeepShared && final(self).groups() == old(self).groups()
                } else {
                    let left = without(old(self).groups()[port].members, name@);
                    if left.len() == 0 {
                        (action matches StopAction::CloseShared { key } && key@
                            == spec_listener_key(port)) && final(self).groups()
                            == old(self).groups().remove(port)
                    } else {
                        action is KeepShared && final(self).groups() == old(self).groups().insert(
                            port,
                            (GroupView { members: left, ..old(self).groups()[port] }),
                        )
                    }
                },
            },
    {
        self.router.unregister_proxy(name);
        match self.shared_port(name) {
            None => StopAction::CloseOwn,
            Some(port) => {
                if self.group_registry.leave(port, name) {
                    StopAction::CloseShared { key: group_listener_key(port) }
                } else {
                    StopAction::KeepShared
                }
            },
        }
    }

    /// What removing a proxy answers and changes.
    pub open spec fn removed(
        before: Self,
        name: Seq<char>,
        action: StopAction,
        after: Self,
    ) -> bool {
        &&& after.proxies() == before.proxies().remove(name)
        &&& after.usage() == before.usage().remove(name)
        &&& after.domains() == without_proxy(before.domains(), name)
        &&& after.routed() == before.routed().remove(name)
        &&& after.same_rules(before)
        &&& match before.group_port(name) {
            None => action is CloseOwn && after.groups() == before.groups(),
            Some(port) => if !before.groups().contains_key(port) {
                action is KeepShared && after.groups() == before.groups()
            } else {
                let left = without(before.groups()[port].members, name);
                if left.len() == 0 {
                    (action matches StopAction::CloseShared { key } && key@ == spec_listener_key(
                        port,
                    )) && after.groups() == before.groups().remove(port)
                } else {
                    action is KeepShared && after.groups() == before.groups().insert(
                        port,
                        GroupView { members: left, ..before.groups()[port] },
                    )
                }
            },
        }
    }

    /// What removing proxies one after the other answers and changes.
    pub open spec fn removed_all(
        before: Self,
        names: Seq<Seq<char>>,
        actions: Seq<StopAction>,
        after: Self,
    ) -> bool
        decreases names.len(),
    {
        &&& actions.len() == names.len()
        &&& if names.len() == 0 {
            after == before
        } else {
            exists|mid: Self|
                Self::removed_all(before, names.drop_last(), actions.drop_last(), mid)
                    && #[trigger] Self::removed(mid, names.last(), actions.last(), after)
        }
    }

    /// Adds a proxy of a client, whose ports are counted.
    pub fn add_proxy_for_user(&mut self, config: ProxyConfig, user: &str) -> (r: Result<
        StartAction,
        ProxyRefusal,
    >)
        requires
            old(self).wf(),
        ensures
            final(self).wf(),
            Self::added(*old(self), Arc::new(config), Some(user@), r, *final(self)),
    {
        self.add_proxy_inner(Arc::new(config), Some(user))
    }

    /// The member of a group that handles the next connection to its port.
    pub fn pick_member(&mut self, port: u16) -> (name: Option<String>)
        requires
            old(self).wf(),
        ensures
            final(self).wf(),
            match name {
                Some(n) => {
                    &&& old(self).groups().contains_key(port)
                    &&& n@ == crate::groups::member_in_turn(old(self).groups()[port])
                    &&& final(self).groups() == old(self).groups().insert(
                        port,
                        (GroupView {
                            turn: crate::groups::next_turn(old(self).groups()[port].turn),
                            ..old(self).groups()[port]
                        }),
                    )
                },
                None => !old(self).groups().contains_key(port) && final(self).groups()
                    == old(self).groups(),
            },
            final(self).proxies() == old(self).proxies(),
            final(self).usage() == old(self).usage(),
            final(self).domains() == old(self).domains(),
            final(self).routed() == old(self).routed(),
            final(self).same_rules(*old(self)),
    {
        self.group_registry.pick(port)
    }

    /// The settings of every proxy.
    pub fn list_proxies(&self) -> (list: Vec<Arc<ProxyConfig>>)
        ensures
            list@.to_set() == self.proxies().values(),
            list@.len() == self.proxies().dom().len(),
    {
        let mut list: Vec<Arc<ProxyConfig>> = Vec::new();
        let n: usize = self.proxies.len();
        let ghost names = self.proxies.names();
        let ghost all = names.map_values(|k: Seq<char>| self.proxies@[k]);
        let mut i: usize = 0;
        while i < n
            invariant
                i <= n,
                names == self.proxies.names(),
                n == names.len(),
                all == names.map_values(|k: Seq<char>| self.proxies@[k]),
                list@ == all.take(i as int),
            decreases n - i,
        {
            let c: &Arc<ProxyConfig> = self.proxies.value_at(i);
            assert(*c == all[i as int]);
            list.push(c.clone());
            i = i + 1;
        }
        proof {
            self.proxies.lemma_names();
            assert(list@ == all);
            names.unique_seq_to_set();
            assert forall|c: Arc<ProxyConfig>| list@.to_set().contains(c)
                == self.proxies().values().contains(c) by {
                if list@.contains(c) {
                    let k = list@.index_of(c);
                    assert(names.contains(names[k]));
                    assert(self.proxies@.contains_key(names[k]));
                    assert(self.proxies@[names[k]] == c);
                }
                if self.proxies().values().contains(c) {
                    let key = choose|key: Seq<char>|
                        #![trigger self.proxies@[key]]
                        self.proxies@.contains_key(key) && self.proxies@[key] == c;
                    assert(names.contains(key));
                    let k = names.index_of(key);
                    assert(list@[k] == c);
                }
            }
            assert(list@.to_set() =~= self.proxies().values());
        }
        list
    }
}

impl ProxyManager for ServerProxyManager {
    type Started = StartAction;

    type Refused = ProxyRefusal;

    type Stopped = StopAction;

    open spec fn valid(&self) -> bool {
        self.wf()
    }

    /// Adds a proxy of the server itself, whose ports are not counted.
    fn add_proxy(&mut self, config: ProxyConfig) -> (r: Result<StartAction, ProxyRefusal>)
        ensures
            Self::added(*old(self), Arc::new(config), None, r, *final(self)),
    {
        self.add_proxy_inner(Arc::new(config), None)
    }

    /// Stops a proxy and forgets it.
    fn remove_proxy(&mut self, name: &str) -> (action: StopAction)
        ensures
            Self::removed(*old(self), name@, action, *final(self)),
    {
        let action = self.stop_proxy(name);
        self.release_user_quota(name);
        let _ = self.proxies.remove(name);
        action
    }

    /// The status of a proxy: `running` where it is registered.
    fn get_proxy_status(&self, name: &str) -> (status: Option<String>)
        ensures
            match status {
                Some(s) => self.proxies().contains_key(name@) && s@ == "running"@,
                None => !self.proxies().contains_key(name@),
            },
    {
        if self.proxies.contains(name) {
            Some("running".to_string())
        } else {
            None
        }
    }

    /// Forgets every proxy and every count. Groups and routed domains stay.
    fn clear(&mut self)
        ensures
            final(self).proxies() == Map::<Seq<char>, Arc<ProxyConfig>>::empty(),
            final(self).usage() == Map::<Seq<char>, Seq<char>>::empty(),
            final(self).groups() == old(self).groups(),
            final(self).domains() == old(self).domains(),
            final(self).routed() == old(self).routed(),
            final(self).same_rules(*old(self)),
    {
        self.proxies.clear();
        self.user_port_counts.clear();
        self.proxy_user_ports.clear();
        proof {
            assert(self.usage() =~= Map::<Seq<char>, Seq<char>>::empty());
            assert(self.usage().dom() =~= Set::<Seq<char>>::empty());
            assert forall|u: Seq<char>| #[trigger] port_count(self.usage(), u) == 0 by {
                assert(ports_of(self.usage(), u) =~= Set::<Seq<char>>::empty());
            }
        }
    }
}

/// With an empty list of ranges no port is allowed.
pub proof fn law_no_ranges_no_ports(port: u16)
    ensures
        !spec_port_allowed(port, Seq::<PortRange>::empty()),
{
}

/// A single port means the same as a range from that port to itself.
pub proof fn law_single_is_a_range_of_one(p: u16, port: u16)
    ensures
        range_holds(PortRange { start: None, end: None, single: Some(p) }, port) == range_holds(
            PortRange { start: Some(p), end: Some(p), single: None },
            port,
        ),
{
}

/// A range that gives only one port allows no other.
pub proof fn law_single_allows_only_itself(p: u16, port: u16)
    ensures
        spec_port_allowed(
            port,
            seq![PortRange { start: None, end: None, single: Some(p) }],
        ) == (port == p),
{
    let ranges = seq![PortRange { start: None, end: None, single: Some(p) }];
    if port == p {
        assert(range_holds(ranges[0], port));
    }
}

/// Removing what was added gives the user's ports back, and leaves those of other
/// users alone.
pub proof fn law_removal_gives_ports_back(
    usage: Map<Seq<char>, Seq<char>>,
    name: Seq<char>,
    user: Seq<char>,
    other: Seq<char>,
)
    requires
        usage.dom().finite(),
        !usage.contains_key(name),
    ensures
        port_count(usage.insert(name, user), user) == port_count(usage, user) + 1,
        other != user ==> port_count(usage.insert(name, user), other) == port_count(usage, other),
        usage.insert(name, user).remove(name) == usage,
{
    lemma_count_insert(usage, name, user, user);
    lemma_count_insert(usage, name, user, other);
    assert(usage.insert(name, user).remove(name) =~= usage);
}

/// Of proxies that were removed one after the other none is left, and the others
/// are as they were.
pub proof fn law_removed_proxies_are_gone(
    before: ServerProxyManager,
    names: Seq<Seq<char>>,
    actions: Seq<StopAction>,
    after: ServerProxyManager,
)
    requires
        ServerProxyManager::removed_all(before, names, actions, after),
    ensures
        after.proxies() == before.proxies().remove_keys(names.to_set()),
        after.usage() == before.usage().remove_keys(names.to_set()),
    decreases names.len(),
{
    if names.len() == 0 {
        assert(after.proxies() =~= before.proxies().remove_keys(names.to_set()));
        assert(after.usage() =~= before.usage().remove_keys(names.to_set()));
    } else {
        let mid = choose|mid: ServerProxyManager|
            ServerProxyManager::removed_all(before, names.drop_last(), actions.drop_last(), mid)
                && #[trigger] ServerProxyManager::removed(
                mid,
                names.last(),
                actions.last(),
                after,
            );
        law_removed_proxies_are_gone(before, names.drop_last(), actions.drop_last(), mid);
        assert(names.to_set() =~= names.drop_last().to_set().insert(names.last())) by {
            assert(names =~= names.drop_last().push(names.last()));
            assert forall|n: Seq<char>| names.to_set().contains(n)
                == names.drop_last().to_set().insert(names.last()).contains(n) by {
                if names.contains(n) {
                    let k = names.index_of(n);
                    if k < names.len() - 1 {
                        assert(names.drop_last()[k] == n);
                    }
                }
                if names.drop_last().contains(n) {
                    let k = names.drop_last().index_of(n);
                    assert(names[k] == n);
                }
                assert(names[names.len() - 1] == names.last());
            }
        }
        assert(after.proxies() =~= before.proxies().remove_keys(names.to_set()));
        assert(after.usage() =~= before.usage().remove_keys(names.to_set()));
    }
}

/// A proxy that was added and then could not open its listener leaves nothing behind,
/// not even as the first member of a group.
pub proof fn law_failed_start_leaves_nothing(
    before: ServerProxyManager,
    c: Arc<ProxyConfig>,
    user: Option<Seq<char>>,
    action: StartAction,
    added: ServerProxyManager,
    after: ServerProxyManager,
)
    requires
        before.wf(),
        ServerProxyManager::added(before, c, user, Ok(action), added),
        action is BindTcp || action is BindUdp || action is BindWebsocket,
        ServerProxyManager::taken_back(added, c.name@, after),
    ensures
        after.same_state(before),
{
    assert(before.proxies().insert(c.name@, c).remove(c.name@) =~= before.proxies());
    assert(!before.usage().contains_key(c.name@));
    assert(after.usage() =~= before.usage());
    if let StartAction::BindTcp { port, grouped: true, .. } = action {
        let members = added.groups()[port].members;
        assert(members =~= seq![c.name@]);
        assert(members.drop_last() =~= Seq::<Seq<char>>::empty());
        assert(without(members.drop_last(), c.name@).len() == 0);
        assert(after.groups() =~= before.groups());
    }
}

/// A proxy that was refused leaves nothing behind.
pub proof fn law_refused_proxy_leaves_nothing(
    before: ServerProxyManager,
    c: Arc<ProxyConfig>,
    user: Option<Seq<char>>,
    e: ProxyRefusal,
    after: ServerProxyManager,
)
    requires
        ServerProxyManager::added(before, c, user, Err(e), after),
    ensures
        after.same_state(before),
{
}

} // verus!
