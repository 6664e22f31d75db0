//! The proxies and visitors of a client, and how it tells its server from others.
use crate::config::{first_given, ClientConfig, ProxyConfig, TransportConfig, VisitorConfig};
use crate::message::{ProxyManager, VisitorManager};
use crate::names::NameMap;
use crate::server::{host_port, join_host_port, work_port};
use crate::text::same;
use std::sync::Arc;
use vstd::prelude::*;
use vstd::string::*;

verus! {

/// What can go wrong in a client.
#[derive(Debug)]
pub enum ClientError {
    Io(String),
    NoWorkConnHandler(String),
    WorkConnManagerNotSet,
    Other(String),
}

impl ClientError {
    /// The text that describes an error.
    pub open spec fn spec_message(self) -> Seq<char> {
        match self {
            ClientError::Io(e) => "I/O error: "@ + e@,
            ClientError::NoWorkConnHandler(n) => "no work conn handler for proxy: "@ + n@,
            ClientError::WorkConnManagerNotSet => "WorkConnManager not set"@,
            ClientError::Other(e) => e@,
        }
    }

    /// The text that describes the error.
    pub fn message(&self) -> (text: String)
        ensures
            text@ == self.spec_message(),
    {
        match self {
            ClientError::Io(e) => "I/O error: ".to_string().concat(e.as_str()),
            ClientError::NoWorkConnHandler(n) => "no work conn handler for proxy: ".to_string().concat(
                n.as_str(),
            ),
            ClientError::WorkConnManagerNotSet => "WorkConnManager not set".to_string(),
            ClientError::Other(e) => e.clone(),
        }
    }
}

/// `e` is this text.
pub open spec fn is_other(e: ClientError, text: Seq<char>) -> bool {
    e matches ClientError::Other(t) && t@ == text
}

/// The handlers of work connections, by proxy.
pub struct WorkConnManager<S> {
    work_conn_senders: NameMap<S>,
}

impl<S> WorkConnManager<S> {
    /// The handler of each proxy.
    pub closed spec fn senders(self) -> Map<Seq<char>, S> {
        self.work_conn_senders@
    }

    pub fn new() -> (m: Self)
        ensures
            m.senders() == Map::<Seq<char>, S>::empty(),
    {
        WorkConnManager { work_conn_senders: NameMap::new() }
    }

    /// Gives a proxy a handler, in place of any earlier one.
    pub fn register_work_conn_handler(&mut self, proxy_name: String, sender: S)
        ensures
            final(self).senders() == old(self).senders().insert(proxy_name@, sender),
    {
        self.work_conn_senders.insert(proxy_name, sender);
    }

    /// The handler of a proxy.
    pub fn get_work_conn_sender(&self, proxy_name: &str) -> (s: Option<&S>)
        ensures
            match s {
                Some(s) => self.senders().contains_key(proxy_name@) && *s
                    == self.senders()[proxy_name@],
                None => !self.senders().contains_key(proxy_name@),
            },
    {
        self.work_conn_senders.get(proxy_name)
    }

    /// Where a work connection of a proxy goes.
    pub fn handle_work_conn(&self, proxy_name: &str) -> (r: Result<&S, ClientError>)
        ensures
            match r {
                Ok(s) => self.senders().contains_key(proxy_name@) && *s
                    == self.senders()[proxy_name@],
                Err(e) => !self.senders().contains_key(proxy_name@) && is_other(
                    e,
                    "No work conn handler for proxy: "@ + proxy_name@,
                ),
            },
    {
        match self.work_conn_senders.get(proxy_name) {
            Some(s) => Ok(s),
            None => Err(
                ClientError::Other(
                    "No work conn handler for proxy: ".to_string().concat(proxy_name),
                ),
            ),
        }
    }
}

/// Where work connections of a proxy go, and how fast at most.
#[derive(Debug)]
pub struct LocalService {
    pub local_addr: String,
    pub bandwidth_limit: Option<String>,
}

/// What has to be done for a proxy that was added.
#[derive(Debug)]
pub enum LocalStart {
    /// The address of the local service is read as a numeric socket address, and the
    /// outcome reported: the proxy starts only where it is one.
    ReadAddress(LocalService),
    /// Nothing: the kind of proxy needs no handler.
    Nothing,
}

/// The kinds of proxies whose work connections go to a local service.
pub open spec fn has_local_service(kind: Seq<char>) -> bool {
    kind == "tcp"@ || kind == "http"@ || kind == "https"@ || kind == "websocket"@
}

/// The proxies of a client.
pub struct ClientProxyManager {
    proxies: NameMap<Arc<ProxyConfig>>,
    bandwidth_limit: Option<String>,
    has_work_conn_manager: bool,
}

impl ClientProxyManager {
    /// The proxies, by name.
    pub closed spec fn proxies(self) -> Map<Seq<char>, Arc<ProxyConfig>> {
        self.proxies@
    }

    /// The limit of proxies without one of their own.
    pub closed spec fn global_limit(self) -> Option<String> {
        self.bandwidth_limit
    }

    /// Whether handlers can be registered.
    pub closed spec fn ready(self) -> bool {
        self.has_work_conn_manager
    }

    pub fn new() -> (m: Self)
        ensures
            m.proxies() == Map::<Seq<char>, Arc<ProxyConfig>>::empty(),
            m.global_limit() is None,
            !m.ready(),
    {
        ClientProxyManager {
            proxies: NameMap::new(),
            bandwidth_limit: None,
            has_work_conn_manager: false,
        }
    }

    /// Says that handlers can be registered from now on.
    pub fn set_work_conn_manager(&mut self)
        ensures
            final(self).ready(),
            final(self).proxies() == old(self).proxies(),
            final(self).global_limit() == old(self).global_limit(),
    {
        self.has_work_conn_manager = true;
    }

    /// Sets the limit of proxies without one of their own.
    pub fn set_bandwidth_limit(&mut self, limit: Option<String>)
        ensures
            final(self).global_limit() == limit,
            final(self).proxies() == old(self).proxies(),
            final(self).ready() == old(self).ready(),
    {
        self.bandwidth_limit = limit;
    }

    /// What starting a proxy takes.
    pub open spec fn start_outcome(self, c: ProxyConfig, start: LocalStart) -> bool {
        if has_local_service(c.kind@) {
            start matches LocalStart::ReadAddress(s) && s.local_addr@ == host_port(
                c.local_ip@,
                c.local_port,
            ) && s.bandwidth_limit == first_given(c.bandwidth_limit, self.global_limit())
        } else {
            start is Nothing
        }
    }

    /// What starting a proxy takes. Its own limit comes before the general one.
    pub fn start_proxy(&self, config: &ProxyConfig) -> (start: LocalStart)
        ensures
            self.start_outcome(*config, start),
    {
        let kind: &str = config.kind.as_str();
        if !(same(kind, "tcp") || same(kind, "http") || same(kind, "https") || same(
            kind,
            "websocket",
        )) {
            return LocalStart::Nothing;
        }
        let bandwidth_limit: Option<String> = match &config.bandwidth_limit {
            Some(l) => Some(l.clone()),
            None => match &self.bandwidth_limit {
                Some(l) => Some(l.clone()),
                None => None,
            },
        };
        LocalStart::ReadAddress(
            LocalService {
                local_addr: join_host_port(config.local_ip.as_str(), config.local_port),
                bandwidth_limit,
            },
        )
    }

    /// Whether the work connections of a proxy are handled, once the address of its
    /// local service was read: not where that failed, for which `problem` gives the
    /// reason, and not where handlers cannot be registered.
    pub fn address_read(&self, service: LocalService, problem: Option<String>) -> (r: Result<
        LocalService,
        ClientError,
    >)
        ensures
            match problem {
                Some(p) => r matches Err(e) && is_other(e, p@),
                None => if self.ready() {
                    r == Ok::<LocalService, ClientError>(service)
                } else {
                    r matches Err(ClientError::WorkConnManagerNotSet)
                },
            },
    {
        if let Some(p) = problem {
            return Err(ClientError::Other(p));
        }
        if !self.has_work_conn_manager {
            return Err(ClientError::WorkConnManagerNotSet);
        }
        Ok(service)
    }

    /// The proxies in the order in which they were added.
    pub closed spec fn order(self) -> Seq<Seq<char>> {
        self.proxies.names()
    }

    /// The settings of every proxy.
    pub fn list_proxies(&self) -> (list: Vec<&Arc<ProxyConfig>>)
        ensures
            list@ == self.order().map_values(|n: Seq<char>| &self.proxies()[n]),
            self.order().no_duplicates(),
            self.order().to_set() == self.proxies().dom(),
    {
        self.proxies.values()
    }
}

impl ProxyManager for ClientProxyManager {
    type Started = LocalStart;

    type Refused = ClientError;

    type Stopped = ();

    open spec fn valid(&self) -> bool {
        true
    }

    /// Adds a proxy, in place of any earlier one of the same name, and says what
    /// starting it takes. It stays added also where it cannot start.
    fn add_proxy(&mut self, config: ProxyConfig) -> (r: Result<LocalStart, ClientError>)
        ensures
            final(self).proxies() == old(self).proxies().insert(config.name@, Arc::new(config)),
            final(self).global_limit() == old(self).global_limit(),
            final(self).ready() == old(self).ready(),
            r matches Ok(start) && old(self).start_outcome(config, start),
    {
        let start = self.start_proxy(&config);
        let name: String = config.name.clone();
        self.proxies.insert(name, Arc::new(config));
        Ok(start)
    }

    /// Forgets a proxy.
    fn remove_proxy(&mut self, name: &str)
        ensures
            final(self).proxies() == old(self).proxies().remove(name@),
            final(self).global_limit() == old(self).global_limit(),
            final(self).ready() == old(self).ready(),
    {
        let _ = self.proxies.remove(name);
    }

    /// The status of a proxy: `running` where it was added.
    fn get_proxy_status(&self, name: &str) -> (status: Option<String>)
        ensures
            match status {
                Some(s) => self.proxies().contains_key(name@) && s@ == "running"@,
                None => !self.proxies().contains_key(name@),
            },
    {
        if self.proxies.contains(name) {
            Some("running".to_string())
        } else {
            None
        }
    }

    /// Forgets every proxy.
    fn clear(&mut self)
        ensures
            final(self).proxies() == Map::<Seq<char>, Arc<ProxyConfig>>::empty(),
            final(self).global_limit() == old(self).global_limit(),
            final(self).ready() == old(self).ready(),
    {
        self.proxies.clear();
    }
}

/// The visitors of a client.
pub struct ClientVisitorManager {
    visitors: NameMap<VisitorConfig>,
}

impl ClientVisitorManager {
    /// The visitors, by name.
    pub closed spec fn visitors(self) -> Map<Seq<char>, VisitorConfig> {
        self.visitors@
    }

    pub fn new() -> (m: Self)
        ensures
            m.visitors() == Map::<Seq<char>, VisitorConfig>::empty(),
    {
        ClientVisitorManager { visitors: NameMap::new() }
    }

    /// The visitors in the order in which they were added.
    pub closed spec fn order(self) -> Seq<Seq<char>> {
        self.visitors.names()
    }

    /// The settings of every visitor.
    pub fn list_visitors(&self) -> (list: Vec<&VisitorConfig>)
        ensures
            list@ == self.order().map_values(|n: Seq<char>| &self.visitors()[n]),
            self.order().no_duplicates(),
            self.order().to_set() == self.visitors().dom(),
    {
        self.visitors.values()
    }
}

impl VisitorManager for ClientVisitorManager {
    fn add_visitor(&mut self, config: VisitorConfig)
        ensures
            final(self).visitors() == old(self).visitors().insert(config.name@, config),
    {
        let name: String = config.name.clone();
        self.visitors.insert(name, config);
    }

    fn remove_visitor(&mut self, name: &str)
        ensures
            final(self).visitors() == old(self).visitors().remove(name@),
    {
        let _ = self.visitors.remove(name);
    }

    fn clear(&mut self)
        ensures
            final(self).visitors() == Map::<Seq<char>, VisitorConfig>::empty(),
    {
        self.visitors.clear();
    }
}

/// How a client checks the certificate of its server.
#[derive(Debug)]
pub enum ClientTls {
    /// There is no encryption.
    Disabled,
    /// Against the certificates in a file.
    CaFile { path: String },
    /// Not at all.
    Insecure,
}

/// How a client checks the certificate of its server.
pub open spec fn client_tls_of(t: TransportConfig) -> ClientTls {
    match t.tls {
        None => ClientTls::Disabled,
        Some(tls) => if !tls.enable {
            ClientTls::Disabled
        } else {
            match tls.trusted_ca_file {
                Some(path) => ClientTls::CaFile { path },
                None => ClientTls::Insecure,
            }
        },
    }
}

/// How a client checks the certificate of its server.
pub fn build_client_tls_config(config: &ClientConfig) -> (t: ClientTls)
    ensures
        t == client_tls_of(config.transport),
{
    match &config.transport.tls {
        None => ClientTls::Disabled,
        Some(tls) => {
            if !tls.enable {
                return ClientTls::Disabled;
            }
            match &tls.trusted_ca_file {
                Some(path) => ClientTls::CaFile { path: path.clone() },
                None => ClientTls::Insecure,
            }
        },
    }
}

/// The port of the server for work connections. Where it is not given it has to
/// exist.
pub fn work_conn_port_of(config: &ClientConfig) -> (port: u16)
    requires
        config.work_conn_port is None ==> config.server_port + 1000 <= u16::MAX,
    ensures
        port == work_port(config.work_conn_port, config.server_port),
{
    match config.work_conn_port {
        Some(p) => p,
        None => config.server_port + 1000,
    }
}

/// The position of the first proxy of this name, or the number of proxies where
/// there is none.
pub open spec fn proxy_index(proxies: Seq<ProxyConfig>, name: Seq<char>) -> nat
    decreases proxies.len(),
{
    if proxies.len() == 0 || proxies[0].name@ == name {
        0
    } else {
        1 + proxy_index(proxies.drop_first(), name)
    }
}

proof fn lemma_proxy_index(proxies: Seq<ProxyConfig>, name: Seq<char>, i: int)
    requires
        0 <= i <= proxies.len(),
        forall|j: int| 0 <= j < i ==> (#[trigger] proxies[j]).name@ != name,
        i < proxies.len() ==> proxies[i].name@ == name,
    ensures
        proxy_index(proxies, name) == i,
    decreases proxies.len(),
{
    if i > 0 {
        assert(proxies[0].name@ != name);
        assert forall|j: int| 0 <= j < i - 1 implies (#[trigger] proxies.drop_first()[j]).name@
            != name by {
            assert(proxies[j + 1].name@ != name);
        }
        lemma_proxy_index(proxies.drop_first(), name, i - 1);
    }
}

/// The first proxy of this name.
pub fn find_proxy<'a>(config: &'a ClientConfig, name: &str) -> (p: Option<&'a ProxyConfig>)
    ensures
        match p {
            Some(c) => proxy_index(config.proxies@, name@) < config.proxies@.len() && *c
                == config.proxies@[proxy_index(config.proxies@, name@) as int] && c.name@ == name@,
            None => proxy_index(config.proxies@, name@) == config.proxies@.len(),
        },
{
    let mut i: usize = 0;
    while i < config.proxies.len()
        invariant
            i <= config.proxies.len(),
            forall|j: int| 0 <= j < i ==> (#[trigger] config.proxies@[j]).name@ != name@,
        decreases config.proxies.len() - i,
    {
        if same(config.proxies[i].name.as_str(), name) {
            proof {
                lemma_proxy_index(config.proxies@, name@, i as int);
            }
            return Some(&config.proxies[i]);
        }
        i = i + 1;
    }
    proof {
        lemma_proxy_index(config.proxies@, name@, i as int);
    }
    None
}

} // verus!
