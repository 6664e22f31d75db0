//! Counters of a running server, and their Prometheus text form.
use crate::names::NameMap;
use crate::text::{chars_of, decimal, digit, find, lemma_find, lemma_find_bound, push_decimal};
use vstd::prelude::*;
use vstd::string::*;

verus! {

/// The connections of one proxy. Counters wrap around.
#[derive(Debug)]
pub struct ProxyStat {
    pub name: String,
    pub proxy_type: String,
    pub remote_port: Option<u16>,
    pub current_conns: usize,
    pub total_conns: usize,
    /// Tells this registration from earlier ones under the same name.
    pub generation: u64,
}

impl ProxyStat {
    /// Counters of a proxy without connections.
    pub fn new(name: &str, proxy_type: &str, remote_port: Option<u16>, generation: u64) -> (s: Self)
        ensures
            s.name@ == name@,
            s.proxy_type@ == proxy_type@,
            s.remote_port == remote_port,
            s.current_conns == 0,
            s.total_conns == 0,
            s.generation == generation,
    {
        ProxyStat {
            name: name.to_string(),
            proxy_type: proxy_type.to_string(),
            remote_port,
            current_conns: 0,
            total_conns: 0,
            generation,
        }
    }

    /// The counters after a connection began.
    pub open spec fn acquired(self) -> ProxyStat {
        ProxyStat {
            current_conns: self.current_conns.wrapping_add(1),
            total_conns: self.total_conns.wrapping_add(1),
            ..self
        }
    }

    /// The counters after a connection ended.
    pub open spec fn released(self) -> ProxyStat {
        ProxyStat { current_conns: self.current_conns.wrapping_sub(1), ..self }
    }
}

/// One connection of a proxy that is being served.
#[derive(Debug)]
pub struct ProxyConnGuard {
    name: String,
    generation: u64,
}

impl ProxyConnGuard {
    /// The proxy that is being served.
    pub closed spec fn name(self) -> Seq<char> {
        self.name@
    }

    /// The registration that is being served.
    pub closed spec fn generation(self) -> u64 {
        self.generation
    }

    /// Counts a connection that begins, where the proxy is registered.
    pub fn acquire(metrics: &mut MonitorMetrics, name: &str) -> (g: Option<Self>)
        ensures
            g is Some == old(metrics).stats().contains_key(name@),
            g matches Some(guard) ==> {
                &&& guard.name() == name@
                &&& guard.generation() == old(metrics).stats()[name@].generation
                &&& final(metrics).stats() == old(metrics).stats().insert(
                    name@,
                    old(metrics).stats()[name@].acquired(),
                )
            },
            g is None ==> final(metrics).stats() == old(metrics).stats(),
            final(metrics).counters() == old(metrics).counters(),
            final(metrics).generations() == old(metrics).generations(),
            final(metrics).order() == old(metrics).order(),
    {
        let next: ProxyStat = match metrics.proxy_stats.get(name) {
            None => {
                return None;
            },
            Some(stat) => ProxyStat {
                name: stat.name.clone(),
                proxy_type: stat.proxy_type.clone(),
                remote_port: stat.remote_port,
                current_conns: stat.current_conns.wrapping_add(1),
                total_conns: stat.total_conns.wrapping_add(1),
                generation: stat.generation,
            },
        };
        let guard = ProxyConnGuard { name: name.to_string(), generation: next.generation };
        metrics.proxy_stats.put(next);
        Some(guard)
    }

    /// Counts a connection that ends. A proxy that was registered anew since the
    /// connection began keeps its counters.
    pub fn release(self, metrics: &mut MonitorMetrics)
        ensures
            final(metrics).stats() == (if old(metrics).stats().contains_key(self.name())
                && old(metrics).stats()[self.name()].generation == self.generation() {
                old(metrics).stats().insert(
                    self.name(),
                    old(metrics).stats()[self.name()].released(),
                )
            } else {
                old(metrics).stats()
            }),
            final(metrics).counters() == old(metrics).counters(),
            final(metrics).generations() == old(metrics).generations(),
            final(metrics).order() == old(metrics).order(),
    {
        let next: ProxyStat = match metrics.proxy_stats.get(self.name.as_str()) {
            None => {
                return ;
            },
            Some(stat) => {
                if stat.generation != self.generation {
                    return ;
                }
                ProxyStat {
                    name: stat.name.clone(),
                    proxy_type: stat.proxy_type.clone(),
                    remote_port: stat.remote_port,
                    current_conns: stat.current_conns.wrapping_sub(1),
                    total_conns: stat.total_conns,
                    generation: stat.generation,
                }
            },
        };
        metrics.proxy_stats.put(next);
    }
}

/// The counters of a server. They wrap around.
#[derive(Debug, Clone, Copy, PartialEq, Eq, Structural)]
pub struct Counters {
    pub total_connections: usize,
    pub current_connections: usize,
    pub total_proxies: usize,
    pub current_proxies: usize,
    pub bytes_sent: usize,
    pub bytes_received: usize,
    pub login_failures: usize,
    pub login_successes: usize,
    pub tls_rejects: usize,
    pub work_conn_total: usize,
    /// When the server started, in seconds.
    pub start_time: u64,
}

/// What the status page shows.
#[derive(Debug, Clone, Copy, PartialEq, Eq, Structural)]
pub struct MetricsSnapshot {
    pub uptime: u64,
    pub total_connections: usize,
    pub current_connections: usize,
    pub total_proxies: usize,
    pub current_proxies: usize,
    pub bytes_sent: usize,
    pub bytes_received: usize,
}

/// The counters of proxies, each under its own name.
struct StatTable {
    stats: NameMap<ProxyStat>,
}

impl StatTable {
    #[verifier::type_invariant]
    closed spec fn named(self) -> bool {
        forall|n: Seq<char>| #[trigger]
            self.stats@.contains_key(n) ==> self.stats@[n].name@ == n
    }

    fn new() -> (t: Self)
        ensures
            t.stats@ == Map::<Seq<char>, ProxyStat>::empty(),
            t.stats.names() == Seq::<Seq<char>>::empty(),
    {
        StatTable { stats: NameMap::new() }
    }

    /// Gives a proxy these counters.
    fn put(&mut self, stat: ProxyStat)
        ensures
            final(self).stats@ == old(self).stats@.insert(stat.name@, stat),
            final(self).stats.names() == (if old(self).stats@.contains_key(stat.name@) {
                old(self).stats.names()
            } else {
                old(self).stats.names().push(stat.name@)
            }),
    {
        proof {
            use_type_invariant(&*self);
        }
        let mut stats: NameMap<ProxyStat> = NameMap::new();
        core::mem::swap(&mut stats, &mut self.stats);
        stats.insert(stat.name.clone(), stat);
        core::mem::swap(&mut stats, &mut self.stats);
    }

    /// Takes the counters of a proxy out.
    fn remove(&mut self, name: &str)
        ensures
            final(self).stats@ == old(self).stats@.remove(name@),
            final(self).stats.names() == (if old(self).stats@.contains_key(name@) {
                old(self).stats.names().remove(old(self).stats.names().index_of(name@))
            } else {
                old(self).stats.names()
            }),
    {
        proof {
            use_type_invariant(&*self);
        }
        let mut stats: NameMap<ProxyStat> = NameMap::new();
        core::mem::swap(&mut stats, &mut self.stats);
        let _ = stats.remove(name);
        core::mem::swap(&mut stats, &mut self.stats);
    }

    /// The counters of a proxy, which are kept under its name.
    fn get(&self, name: &str) -> (stat: Option<&ProxyStat>)
        ensures
            match stat {
                Some(s) => self.stats@.contains_key(name@) && *s == self.stats@[name@] && s.name@
                    == name@,
                None => !self.stats@.contains_key(name@),
            },
    {
        proof {
            use_type_invariant(self);
        }
        self.stats.get(name)
    }

    /// How many proxies there are. The order lists each of them once, and each is
    /// kept under its name.
    fn len(&self) -> (n: usize)
        ensures
            n == self.stats.names().len(),
            self.stats.names().no_duplicates(),
            self.stats.names().to_set() == self.stats@.dom(),
            forall|n: Seq<char>| #[trigger]
                self.stats@.contains_key(n) ==> self.stats@[n].name@ == n,
    {
        proof {
            use_type_invariant(self);
            self.stats.lemma_names();
        }
        self.stats.len()
    }
}

/// Everything that a server counts.
pub struct MonitorMetrics {
    counters: Counters,
    proxy_stats: StatTable,
    generations: u64,
}

impl Default for MonitorMetrics {
    fn default() -> (m: Self)
        ensures
            m.counters() == Counters::fresh(0),
            m.stats() == Map::<Seq<char>, ProxyStat>::empty(),
            m.order() == Seq::<Seq<char>>::empty(),
            m.generations() == 0,
    {
        MonitorMetrics::new(0)
    }
}

impl Counters {
    /// The counters of a server that starts at `now`.
    pub open spec fn fresh(now: u64) -> Counters {
        Counters {
            total_connections: 0,
            current_connections: 0,
            total_proxies: 0,
            current_proxies: 0,
            bytes_sent: 0,
            bytes_received: 0,
            login_failures: 0,
            login_successes: 0,
            tls_rejects: 0,
            work_conn_total: 0,
            start_time: now,
        }
    }

    /// Seconds since the start; 0 where the clock ran back.
    pub open spec fn uptime(self, now: u64) -> u64 {
        if now >= self.start_time {
            (now - self.start_time) as u64
        } else {
            0
        }
    }
}

/// The text of one metric: what it means, what kind it is and its value.
pub open spec fn metric_text(
    name: Seq<char>,
    help: Seq<char>,
    kind: Seq<char>,
    value: nat,
) -> Seq<char> {
    "# HELP "@ + name + " "@ + help + "\n# TYPE "@ + name + " "@ + kind + "\n"@ + name + " "@
        + decimal(value) + "\n"@
}

fn push_metric(out: &mut String, name: &str, help: &str, kind: &str, value: u64)
    ensures
        final(out)@ == old(out)@ + metric_text(name@, help@, kind@, value as nat),
{
    let ghost start = out@;
    out.append("# HELP ");
    out.append(name);
    out.append(" ");
    out.append(help);
    out.append("\n# TYPE ");
    out.append(name);
    out.append(" ");
    out.append(kind);
    out.append("\n");
    out.append(name);
    out.append(" ");
    push_decimal(out, value);
    out.append("\n");
    assert(out@ =~= start + metric_text(name@, help@, kind@, value as nat));
}

/// A character as it stands in a label: a backslash, a quote and a line feed are
/// written with a backslash.
pub open spec fn escaped_char(c: char) -> Seq<char> {
    if c == '\\' {
        seq!['\\', '\\']
    } else if c == '"' {
        seq!['\\', '"']
    } else if c == '\n' {
        seq!['\\', 'n']
    } else {
        seq![c]
    }
}

/// A text as it stands in a label.
pub open spec fn escaped(s: Seq<char>) -> Seq<char>
    decreases s.len(),
{
    if s.len() == 0 {
        seq![]
    } else {
        escaped(s.drop_last()) + escaped_char(s.last())
    }
}

fn push_escaped(out: &mut String, s: &str)
    ensures
        final(out)@ == old(out)@ + escaped(s@),
{
    let ghost start = out@;
    let chars: Vec<char> = chars_of(s);
    let mut i: usize = 0;
    assert(s@.take(0) =~= Seq::<char>::empty());
    while i < chars.len()
        invariant
            i <= chars.len(),
            chars@ == s@,
            out@ == start + escaped(s@.take(i as int)),
        decreases chars.len() - i,
    {
        let c: char = chars[i];
        assert(s@.take(i + 1).drop_last() == s@.take(i as int));
        if c == '\\' {
            out.push('\\');
            out.push('\\');
        } else if c == '"' {
            out.push('\\');
            out.push('"');
        } else if c == '\n' {
            out.push('\\');
            out.push('n');
        } else {
            out.push(c);
        }
        assert(out@ =~= start + escaped(s@.take(i + 1)));
        i = i + 1;
    }
    assert(s@.take(i as int) == s@);
}

/// The labels of a proxy.
pub open spec fn labels_text(stat: ProxyStat) -> Seq<char> {
    "{name=\""@ + escaped(stat.name@) + "\",type=\""@ + escaped(stat.proxy_type@) + "\"}"@
}

fn push_labels(out: &mut String, stat: &ProxyStat)
    ensures
        final(out)@ == old(out)@ + labels_text(*stat),
{
    let ghost start = out@;
    out.append("{name=\"");
    push_escaped(out, stat.name.as_str());
    out.append("\",type=\"");
    push_escaped(out, stat.proxy_type.as_str());
    out.append("\"}");
    assert(out@ =~= start + labels_text(*stat));
}

/// The metrics that every proxy has: its connections now, and all of them so far.
#[derive(Debug, Clone, Copy, PartialEq, Eq, Structural)]
pub enum ProxyMetric {
    Current,
    Total,
}

impl ProxyMetric {
    /// What stands before the samples: what the metric means and of what kind it is.
    pub open spec fn spec_header(self) -> Seq<char> {
        match self {
            ProxyMetric::Current =>
                "# HELP frps_proxy_conns_current Current connections per proxy\n# TYPE frps_proxy_conns_current gauge\n"@,
            ProxyMetric::Total =>
                "# HELP frps_proxy_conns_total Total connections per proxy\n# TYPE frps_proxy_conns_total counter\n"@,
        }
    }

    /// The name of the metric.
    pub open spec fn spec_name(self) -> Seq<char> {
        match self {
            ProxyMetric::Current => "frps_proxy_conns_current"@,
            ProxyMetric::Total => "frps_proxy_conns_total"@,
        }
    }

    /// The value of the metric for a proxy.
    pub open spec fn value(self, stat: ProxyStat) -> nat {
        match self {
            ProxyMetric::Current => stat.current_conns as nat,
            ProxyMetric::Total => stat.total_conns as nat,
        }
    }

    fn header(self) -> (t: &'static str)
        ensures
            t@ == self.spec_header(),
    {
        match self {
            ProxyMetric::Current =>
                "# HELP frps_proxy_conns_current Current connections per proxy\n# TYPE frps_proxy_conns_current gauge\n",
            ProxyMetric::Total =>
                "# HELP frps_proxy_conns_total Total connections per proxy\n# TYPE frps_proxy_conns_total counter\n",
        }
    }

    fn name(self) -> (t: &'static str)
        ensures
            t@ == self.spec_name(),
    {
        match self {
            ProxyMetric::Current => "frps_proxy_conns_current",
            ProxyMetric::Total => "frps_proxy_conns_total",
        }
    }
}

/// The sample of a metric for one proxy.
pub open spec fn sample_text(metric: ProxyMetric, stat: ProxyStat) -> Seq<char> {
    metric.spec_name() + labels_text(stat) + " "@ + decimal(metric.value(stat)) + "\n"@
}

fn push_sample(out: &mut String, metric: ProxyMetric, stat: &ProxyStat)
    ensures
        final(out)@ == old(out)@ + sample_text(metric, *stat),
{
    let ghost start = out@;
    out.append(metric.name());
    push_labels(out, stat);
    out.append(" ");
    push_decimal(
        out,
        match metric {
            ProxyMetric::Current => stat.current_conns as u64,
            ProxyMetric::Total => stat.total_conns as u64,
        },
    );
    out.append("\n");
    assert(out@ =~= start + sample_text(metric, *stat));
}

/// The samples of a metric, one for each proxy.
pub open spec fn samples_text(
    metric: ProxyMetric,
    stats: Map<Seq<char>, ProxyStat>,
    order: Seq<Seq<char>>,
) -> Seq<char>
    decreases order.len(),
{
    if order.len() == 0 {
        seq![]
    } else {
        samples_text(metric, stats, order.drop_last()) + sample_text(metric, stats[order.last()])
    }
}

/// The metrics of the proxies: what each of the two means, once, then its samples.
/// Without a proxy there is nothing to say.
pub open spec fn proxies_text(
    stats: Map<Seq<char>, ProxyStat>,
    order: Seq<Seq<char>>,
) -> Seq<char> {
    if order.len() == 0 {
        seq![]
    } else {
        ProxyMetric::Current.spec_header() + samples_text(ProxyMetric::Current, stats, order)
            + ProxyMetric::Total.spec_header() + samples_text(ProxyMetric::Total, stats, order)
    }
}

/// An order without one of its names.
pub open spec fn without_name(order: Seq<Seq<char>>, name: Seq<char>) -> Seq<Seq<char>> {
    if order.contains(name) {
        order.remove(order.index_of(name))
    } else {
        order
    }
}

/// An order without some of its names, which are taken out one after the other.
pub open spec fn without_names(order: Seq<Seq<char>>, names: Seq<Seq<char>>) -> Seq<Seq<char>>
    decreases names.len(),
{
    if names.len() == 0 {
        order
    } else {
        without_name(without_names(order, names.drop_last()), names.last())
    }
}

/// The metrics of the server as a whole.
#[derive(Debug, Clone, Copy, PartialEq, Eq, Structural)]
pub enum ServerMetric {
    Uptime,
    ConnectionsTotal,
    ConnectionsCurrent,
    ProxiesTotal,
    ProxiesCurrent,
    BytesSent,
    BytesReceived,
    LoginSuccesses,
    LoginFailures,
    TlsRejects,
    WorkConns,
}

impl ServerMetric {
    /// The name of the metric.
    pub open spec fn spec_name(self) -> Seq<char> {
        match self {
            ServerMetric::Uptime => "frps_uptime_seconds"@,
            ServerMetric::ConnectionsTotal => "frps_connections_total"@,
            ServerMetric::ConnectionsCurrent => "frps_connections_current"@,
            ServerMetric::ProxiesTotal => "frps_proxies_total"@,
            ServerMetric::ProxiesCurrent => "frps_proxies_current"@,
            ServerMetric::BytesSent => "frps_traffic_bytes_sent_total"@,
            ServerMetric::BytesReceived => "frps_traffic_bytes_received_total"@,
            ServerMetric::LoginSuccesses => "frps_login_successes_total"@,
            ServerMetric::LoginFailures => "frps_login_failures_total"@,
            ServerMetric::TlsRejects => "frps_tls_rejects_total"@,
            ServerMetric::WorkConns => "frps_work_conn_total"@,
        }
    }

    /// What the metric means.
    pub open spec fn spec_help(self) -> Seq<char> {
        match self {
            ServerMetric::Uptime => "Server uptime in seconds"@,
            ServerMetric::ConnectionsTotal => "Total visitor connections accepted"@,
            ServerMetric::ConnectionsCurrent => "Current visitor connections"@,
            ServerMetric::ProxiesTotal => "Total proxies registered"@,
            ServerMetric::ProxiesCurrent => "Current registered proxies"@,
            ServerMetric::BytesSent => "Bytes sent (not wired in dataplane, always 0)"@,
            ServerMetric::BytesReceived => "Bytes received (not wired in dataplane, always 0)"@,
            ServerMetric::LoginSuccesses => "Successful client logins"@,
            ServerMetric::LoginFailures => "Failed client logins"@,
            ServerMetric::TlsRejects => "TLS handshake rejections"@,
            ServerMetric::WorkConns => "Work connections registered"@,
        }
    }

    /// What kind of metric it is: one that goes up and down, or one that only grows.
    pub open spec fn spec_kind(self) -> Seq<char> {
        match self {
            ServerMetric::Uptime
            | ServerMetric::ConnectionsCurrent
            | ServerMetric::ProxiesCurrent => "gauge"@,
            _ => "counter"@,
        }
    }

    /// The value of the metric.
    pub open spec fn value(self, c: Counters, now: u64) -> nat {
        match self {
            ServerMetric::Uptime => c.uptime(now) as nat,
            ServerMetric::ConnectionsTotal => c.total_connections as nat,
            ServerMetric::ConnectionsCurrent => c.current_connections as nat,
            ServerMetric::ProxiesTotal => c.total_proxies as nat,
            ServerMetric::ProxiesCurrent => c.current_proxies as nat,
            ServerMetric::BytesSent => c.bytes_sent as nat,
            ServerMetric::BytesReceived => c.bytes_received as nat,
            ServerMetric::LoginSuccesses => c.login_successes as nat,
            ServerMetric::LoginFailures => c.login_failures as nat,
            ServerMetric::TlsRejects => c.tls_rejects as nat,
            ServerMetric::WorkConns => c.work_conn_total as nat,
        }
    }

    /// The text of the metric.
    pub open spec fn text(self, c: Counters, now: u64) -> Seq<char> {
        metric_text(self.spec_name(), self.spec_help(), self.spec_kind(), self.value(c, now))
    }

    fn name(self) -> (t: &'static str)
        ensures
            t@ == self.spec_name(),
    {
        match self {
            ServerMetric::Uptime => "frps_uptime_seconds",
            ServerMetric::ConnectionsTotal => "frps_connections_total",
            ServerMetric::ConnectionsCurrent => "frps_connections_current",
            ServerMetric::ProxiesTotal => "frps_proxies_total",
            ServerMetric::ProxiesCurrent => "frps_proxies_current",
            ServerMetric::BytesSent => "frps_traffic_bytes_sent_total",
            ServerMetric::BytesReceived => "frps_traffic_bytes_received_total",
            ServerMetric::LoginSuccesses => "frps_login_successes_total",
            ServerMetric::LoginFailures => "frps_login_failures_total",
            ServerMetric::TlsRejects => "frps_tls_rejects_total",
            ServerMetric::WorkConns => "frps_work_conn_total",
        }
    }

    fn help(self) -> (t: &'static str)
        ensures
            t@ == self.spec_help(),
    {
        match self {
            ServerMetric::Uptime => "Server uptime in seconds",
            ServerMetric::ConnectionsTotal => "Total visitor connections accepted",
            ServerMetric::ConnectionsCurrent => "Current visitor connections",
            ServerMetric::ProxiesTotal => "Total proxies registered",
            ServerMetric::ProxiesCurrent => "Current registered proxies",
            ServerMetric::BytesSent => "Bytes sent (not wired in dataplane, always 0)",
            ServerMetric::BytesReceived => "Bytes received (not wired in dataplane, always 0)",
            ServerMetric::LoginSuccesses => "Successful client logins",
            ServerMetric::LoginFailures => "Failed client logins",
            ServerMetric::TlsRejects => "TLS handshake rejections",
            ServerMetric::WorkConns => "Work connections registered",
        }
    }

    fn kind(self) -> (t: &'static str)
        ensures
            t@ == self.spec_kind(),
    {
        match self {
            ServerMetric::Uptime
            | ServerMetric::ConnectionsCurrent
            | ServerMetric::ProxiesCurrent => "gauge",
            _ => "counter",
        }
    }
}

/// The text of the metrics of the server as a whole.
pub open spec fn server_text(c: Counters, now: u64) -> Seq<char> {
    ServerMetric::Uptime.text(c, now)
        + ServerMetric::ConnectionsTotal.text(c, now)
        + ServerMetric::ConnectionsCurrent.text(c, now)
        + ServerMetric::ProxiesTotal.text(c, now)
        + ServerMetric::ProxiesCurrent.text(c, now)
        + ServerMetric::BytesSent.text(c, now)
        + ServerMetric::BytesReceived.text(c, now)
        + ServerMetric::LoginSuccesses.text(c, now)
        + ServerMetric::LoginFailures.text(c, now)
        + ServerMetric::TlsRejects.text(c, now)
        + ServerMetric::WorkConns.text(c, now)
}

impl MonitorMetrics {
    /// The counters of the server.
    pub closed spec fn counters(self) -> Counters {
        self.counters
    }

    /// The counters of each proxy.
    pub closed spec fn stats(self) -> Map<Seq<char>, ProxyStat> {
        self.proxy_stats.stats@
    }

    /// The proxies in the order in which they were registered.
    pub closed spec fn order(self) -> Seq<Seq<char>> {
        self.proxy_stats.stats.names()
    }

    /// How many proxies were registered so far.
    pub closed spec fn generations(self) -> u64 {
        self.generations
    }

    /// Only the counters of the server differ between the two.
    pub open spec fn same_proxies(self, other: Self) -> bool {
        &&& self.stats() == other.stats()
        &&& self.order() == other.order()
        &&& self.generations() == other.generations()
    }

    /// The metrics of a server that starts at `now`.
    pub fn new(now: u64) -> (m: Self)
        ensures
            m.counters() == Counters::fresh(now),
            m.stats() == Map::<Seq<char>, ProxyStat>::empty(),
            m.order() == Seq::<Seq<char>>::empty(),
            m.generations() == 0,
    {
        MonitorMetrics {
            counters: Counters {
                total_connections: 0,
                current_connections: 0,
                total_proxies: 0,
                current_proxies: 0,
                bytes_sent: 0,
                bytes_received: 0,
                login_failures: 0,
                login_successes: 0,
                tls_rejects: 0,
                work_conn_total: 0,
                start_time: now,
            },
            proxy_stats: StatTable::new(),
            generations: 0,
        }
    }

    pub fn increment_connections(&mut self)
        ensures
            final(self).counters() == (Counters {
                total_connections: old(self).counters().total_connections.wrapping_add(1),
                current_connections: old(self).counters().current_connections.wrapping_add(1),
                ..old(self).counters()
            }),
            final(self).same_proxies(*old(self)),
    {
        self.counters.total_connections = self.counters.total_connections.wrapping_add(1);
        self.counters.current_connections = self.counters.current_connections.wrapping_add(1);
    }

    pub fn decrement_connections(&mut self)
        ensures
            final(self).counters() == (Counters {
                current_connections: old(self).counters().current_connections.wrapping_sub(1),
                ..old(self).counters()
            }),
            final(self).same_proxies(*old(self)),
    {
        self.counters.current_connections = self.counters.current_connections.wrapping_sub(1);
    }

    pub fn increment_proxies(&mut self)
        ensures
            final(self).counters() == (Counters {
                total_proxies: old(self).counters().total_proxies.wrapping_add(1),
                current_proxies: old(self).counters().current_proxies.wrapping_add(1),
                ..old(self).counters()
            }),
            final(self).same_proxies(*old(self)),
    {
        self.counters.total_proxies = self.counters.total_proxies.wrapping_add(1);
        self.counters.current_proxies = self.counters.current_proxies.wrapping_add(1);
    }

    pub fn decrement_proxies(&mut self)
        ensures
            final(self).counters() == (Counters {
                current_proxies: old(self).counters().current_proxies.wrapping_sub(1),
                ..old(self).counters()
            }),
            final(self).same_proxies(*old(self)),
    {
        self.counters.current_proxies = self.counters.current_proxies.wrapping_sub(1);
    }

    pub fn add_bytes_sent(&mut self, bytes: usize)
        ensures
            final(self).counters() == (Counters {
                bytes_sent: old(self).counters().bytes_sent.wrapping_add(bytes),
                ..old(self).counters()
            }),
            final(self).same_proxies(*old(self)),
    {
        self.counters.bytes_sent = self.counters.bytes_sent.wrapping_add(bytes);
    }

    pub fn add_bytes_received(&mut self, bytes: usize)
        ensures
            final(self).counters() == (Counters {
                bytes_received: old(self).counters().bytes_received.wrapping_add(bytes),
                ..old(self).counters()
            }),
            final(self).same_proxies(*old(self)),
    {
        self.counters.bytes_received = self.counters.bytes_received.wrapping_add(bytes);
    }

    pub fn incr_login_failures(&mut self)
        ensures
            final(self).counters() == (Counters {
                login_failures: old(self).counters().login_failures.wrapping_add(1),
                ..old(self).counters()
            }),
            final(self).same_proxies(*old(self)),
    {
        self.counters.login_failures = self.counters.login_failures.wrapping_add(1);
    }

    pub fn incr_login_successes(&mut self)
        ensures
            final(self).counters() == (Counters {
                login_successes: old(self).counters().login_successes.wrapping_add(1),
                ..old(self).counters()
            }),
            final(self).same_proxies(*old(self)),
    {
        self.counters.login_successes = self.counters.login_successes.wrapping_add(1);
    }

    pub fn incr_tls_rejects(&mut self)
        ensures
            final(self).counters() == (Counters {
                tls_rejects: old(self).counters().tls_rejects.wrapping_add(1),
                ..old(self).counters()
            }),
            final(self).same_proxies(*old(self)),
    {
        self.counters.tls_rejects = self.counters.tls_rejects.wrapping_add(1);
    }

    pub fn incr_work_conn_total(&mut self)
        ensures
            final(self).counters() == (Counters {
                work_conn_total: old(self).counters().work_conn_total.wrapping_add(1),
                ..old(self).counters()
            }),
            final(self).same_proxies(*old(self)),
    {
        self.counters.work_conn_total = self.counters.work_conn_total.wrapping_add(1);
    }

    /// Seconds since the start.
    pub fn uptime(&self, now: u64) -> (secs: u64)
        ensures
            secs == self.counters().uptime(now),
    {
        if now >= self.counters.start_time {
            now - self.counters.start_time
        } else {
            0
        }
    }

    /// What the status page shows.
    pub fn get_metrics(&self, now: u64) -> (s: MetricsSnapshot)
        ensures
            s == (MetricsSnapshot {
                uptime: self.counters().uptime(now),
                total_connections: self.counters().total_connections,
                current_connections: self.counters().current_connections,
                total_proxies: self.counters().total_proxies,
                current_proxies: self.counters().current_proxies,
                bytes_sent: self.counters().bytes_sent,
                bytes_received: self.counters().bytes_received,
            }),
    {
        MetricsSnapshot {
            uptime: self.uptime(now),
            total_connections: self.counters.total_connections,
            current_connections: self.counters.current_connections,
            total_proxies: self.counters.total_proxies,
            current_proxies: self.counters.current_proxies,
            bytes_sent: self.counters.bytes_sent,
            bytes_received: self.counters.bytes_received,
        }
    }

    /// Starts to count the connections of a proxy, from zero.
    pub fn register_proxy_stat(&mut self, name: &str, proxy_type: &str, remote_port: Option<u16>)
        ensures
            final(self).stats().contains_key(name@),
            final(self).stats() == old(self).stats().insert(name@, final(self).stats()[name@]),
            final(self).stats()[name@].name@ == name@,
            final(self).stats()[name@].proxy_type@ == proxy_type@,
            final(self).stats()[name@].remote_port == remote_port,
            final(self).stats()[name@].current_conns == 0,
            final(self).stats()[name@].total_conns == 0,
            final(self).stats()[name@].generation == old(self).generations(),
            final(self).generations() == old(self).generations().wrapping_add(1),
            final(self).order() == (if old(self).stats().contains_key(name@) {
                old(self).order()
            } else {
                old(self).order().push(name@)
            }),
            final(self).counters() == old(self).counters(),
    {
        let stat = ProxyStat::new(name, proxy_type, remote_port, self.generations);
        self.generations = self.generations.wrapping_add(1);
        self.proxy_stats.put(stat);
        assert(self.stats()[name@] == stat);
    }

    /// Stops counting the connections of a proxy.
    pub fn remove_proxy_stat(&mut self, name: &str)
        ensures
            final(self).stats() == old(self).stats().remove(name@),
            final(self).order() == without_name(old(self).order(), name@),
            final(self).counters() == old(self).counters(),
            final(self).generations() == old(self).generations(),
    {
        proof {
            self.proxy_stats.stats.lemma_names();
        }
        self.proxy_stats.remove(name);
    }

    /// The counters of a proxy.
    pub fn get_proxy_stat(&self, name: &str) -> (stat: Option<&ProxyStat>)
        ensures
            match stat {
                Some(s) => self.stats().contains_key(name@) && *s == self.stats()[name@],
                None => !self.stats().contains_key(name@),
            },
    {
        self.proxy_stats.get(name)
    }

    fn push_server_metric(&self, out: &mut String, metric: ServerMetric, now: u64)
        ensures
            final(out)@ == old(out)@ + metric.text(self.counters(), now),
    {
        let value: u64 = match metric {
            ServerMetric::Uptime => self.uptime(now),
            ServerMetric::ConnectionsTotal => self.counters.total_connections as u64,
            ServerMetric::ConnectionsCurrent => self.counters.current_connections as u64,
            ServerMetric::ProxiesTotal => self.counters.total_proxies as u64,
            ServerMetric::ProxiesCurrent => self.counters.current_proxies as u64,
            ServerMetric::BytesSent => self.counters.bytes_sent as u64,
            ServerMetric::BytesReceived => self.counters.bytes_received as u64,
            ServerMetric::LoginSuccesses => self.counters.login_successes as u64,
            ServerMetric::LoginFailures => self.counters.login_failures as u64,
            ServerMetric::TlsRejects => self.counters.tls_rejects as u64,
            ServerMetric::WorkConns => self.counters.work_conn_total as u64,
        };
        push_metric(out, metric.name(), metric.help(), metric.kind(), value);
    }

    /// The metrics of the server as a whole.
    fn push_server(&self, out: &mut String, now: u64)
        ensures
            final(out)@ == old(out)@ + server_text(self.counters(), now),
    {
        let ghost start = out@;
        self.push_server_metric(out, ServerMetric::Uptime, now);
        self.push_server_metric(out, ServerMetric::ConnectionsTotal, now);
        self.push_server_metric(out, ServerMetric::ConnectionsCurrent, now);
        self.push_server_metric(out, ServerMetric::ProxiesTotal, now);
        self.push_server_metric(out, ServerMetric::ProxiesCurrent, now);
        self.push_server_metric(out, ServerMetric::BytesSent, now);
        self.push_server_metric(out, ServerMetric::BytesReceived, now);
        self.push_server_metric(out, ServerMetric::LoginSuccesses, now);
        self.push_server_metric(out, ServerMetric::LoginFailures, now);
        self.push_server_metric(out, ServerMetric::TlsRejects, now);
        self.push_server_metric(out, ServerMetric::WorkConns, now);
        assert(out@ =~= start + server_text(self.counters, now));
    }

    /// The samples of a metric, one for each proxy.
    fn push_samples(&self, out: &mut String, metric: ProxyMetric)
        ensures
            final(out)@ == old(out)@ + samples_text(metric, self.stats(), self.order()),
    {
        let ghost head = out@;
        let n: usize = self.proxy_stats.len();
        let mut i: usize = 0;
        assert(self.order().take(0) =~= Seq::<Seq<char>>::empty());
        while i < n
            invariant
                i <= n,
                n == self.proxy_stats.stats.names().len(),
                out@ == head + samples_text(metric, self.stats(), self.order().take(i as int)),
            decreases n - i,
        {
            let ghost upto = self.order().take(i + 1);
            assert(upto.drop_last() == self.order().take(i as int));
            push_sample(out, metric, self.proxy_stats.stats.value_at(i));
            assert(out@ =~= head + samples_text(metric, self.stats(), upto));
            i = i + 1;
        }
        assert(self.order().take(i as int) == self.order());
    }

    /// The metrics in the Prometheus text format. Each registered proxy has one sample
    /// of each of its metrics, under its name, and nothing else has one.
    pub fn render_prometheus(&self, now: u64) -> (text: String)
        ensures
            text@ == server_text(self.counters(), now) + proxies_text(self.stats(), self.order()),
            self.order().no_duplicates(),
            self.order().to_set() == self.stats().dom(),
            forall|n: Seq<char>| #[trigger]
                self.stats().contains_key(n) ==> self.stats()[n].name@ == n,
    {
        let mut out: String = String::new();
        self.push_server(&mut out, now);
        assert(out@ =~= server_text(self.counters(), now));
        let ghost head = out@;
        if self.proxy_stats.len() > 0 {
            out.append(ProxyMetric::Current.header());
            self.push_samples(&mut out, ProxyMetric::Current);
            out.append(ProxyMetric::Total.header());
            self.push_samples(&mut out, ProxyMetric::Total);
        }
        assert(out@ =~= head + proxies_text(self.stats(), self.order()));
        out
    }
}

/// A connection that ended leaves the number of current connections as it was, and
/// counts once in the total.
pub proof fn law_guard_is_balanced(stat: ProxyStat)
    ensures
        stat.acquired().released().current_conns == stat.current_conns,
        stat.acquired().released().total_conns == stat.total_conns.wrapping_add(1),
{
}

/// Reads an escaped text back.
pub open spec fn unescaped(t: Seq<char>) -> Seq<char>
    decreases t.len(),
{
    if t.len() == 0 {
        seq![]
    } else if t[0] == '\\' && t.len() >= 2 {
        seq![if t[1] == 'n' {
                '\n'
            } else {
                t[1]
            }] + unescaped(t.skip(2))
    } else {
        seq![t[0]] + unescaped(t.skip(1))
    }
}

/// A text that can stand between quotes: it holds no line feed and no quote that a
/// backslash does not precede, and no backslash stands alone at its end.
pub open spec fn fits_in_quotes(t: Seq<char>) -> bool
    decreases t.len(),
{
    if t.len() == 0 {
        true
    } else if t[0] == '\\' {
        t.len() >= 2 && t[1] != '\n' && fits_in_quotes(t.skip(2))
    } else {
        t[0] != '"' && t[0] != '\n' && fits_in_quotes(t.skip(1))
    }
}

proof fn lemma_escaped_front(s: Seq<char>)
    requires
        s.len() > 0,
    ensures
        escaped(s) == escaped_char(s[0]) + escaped(s.drop_first()),
    decreases s.len(),
{
    if s.len() == 1 {
        assert(s.drop_last() == Seq::<char>::empty());
        assert(s.drop_first() == Seq::<char>::empty());
        assert(escaped(Seq::<char>::empty()) == Seq::<char>::empty());
        assert(escaped(s) =~= escaped_char(s[0]));
        assert(escaped_char(s[0]) + escaped(s.drop_first()) =~= escaped_char(s[0]));
    } else {
        lemma_escaped_front(s.drop_last());
        assert(s.drop_last().drop_first() == s.drop_first().drop_last());
        assert(escaped(s) =~= escaped_char(s[0]) + (escaped(s.drop_first().drop_last())
            + escaped_char(s.last())));
    }
}

/// An escaped text can stand between quotes, whatever the text is: a name cannot
/// end its label early or begin a line of its own.
pub proof fn law_escaped_fits_in_quotes(s: Seq<char>)
    ensures
        fits_in_quotes(escaped(s)),
    decreases s.len(),
{
    if s.len() > 0 {
        lemma_escaped_front(s);
        law_escaped_fits_in_quotes(s.drop_first());
        let e = escaped_char(s[0]);
        assert(escaped(s).skip(e.len() as int) =~= escaped(s.drop_first()));
        assert(escaped(s)[0] == e[0]);
        if e.len() == 2 {
            assert(escaped(s)[1] == e[1]);
        }
    }
}

/// Escaping loses nothing: the text can be read back.
pub proof fn law_escaping_can_be_undone(s: Seq<char>)
    ensures
        unescaped(escaped(s)) == s,
    decreases s.len(),
{
    if s.len() > 0 {
        lemma_escaped_front(s);
        law_escaping_can_be_undone(s.drop_first());
        let e = escaped_char(s[0]);
        assert(escaped(s).skip(e.len() as int) =~= escaped(s.drop_first()));
        assert(escaped(s)[0] == e[0]);
        if e.len() == 2 {
            assert(escaped(s)[1] == e[1]);
        }
        assert(seq![s[0]] + s.drop_first() =~= s);
    }
}

/// A text without a line feed.
pub open spec fn on_one_line(s: Seq<char>) -> bool {
    forall|i: int| 0 <= i < s.len() ==> #[trigger] s[i] != '\n'
}

/// A line of the text format, with its line feed: what a metric means, what kind it
/// is, or a sample. All names begin with `frps_`.
pub open spec fn is_metric_line(l: Seq<char>) -> bool {
    &&& l.len() > 0
    &&& l.last() == '\n'
    &&& on_one_line(l.drop_last())
    &&& "# HELP frps_"@.is_prefix_of(l) || "# TYPE frps_"@.is_prefix_of(l) || "frps_"@.is_prefix_of(
        l,
    )
}

/// A text that is made of such lines and nothing else.
pub open spec fn is_metric_text(t: Seq<char>) -> bool
    decreases t.len(),
{
    if t.len() == 0 {
        true
    } else {
        let n = find(t, '\n') as int;
        n < t.len() && is_metric_line(t.take(n + 1)) && is_metric_text(t.skip(n + 1))
    }
}

proof fn lemma_line_first(l: Seq<char>, t: Seq<char>)
    requires
        is_metric_line(l),
        is_metric_text(t),
    ensures
        is_metric_text(l + t),
{
    let s = l + t;
    let n = l.len() - 1;
    assert forall|j: int| 0 <= j < n implies s[j] != '\n' by {
        assert(l.drop_last()[j] != '\n');
    }
    lemma_find(s, '\n', n);
    assert(s.take(n + 1) =~= l);
    assert(s.skip(n + 1) =~= t);
}

proof fn lemma_texts_joined(a: Seq<char>, b: Seq<char>)
    requires
        is_metric_text(a),
        is_metric_text(b),
    ensures
        is_metric_text(a + b),
    decreases a.len(),
{
    if a.len() == 0 {
        assert(a + b =~= b);
    } else {
        let n = find(a, '\n') as int;
        lemma_texts_joined(a.skip(n + 1), b);
        lemma_line_first(a.take(n + 1), a.skip(n + 1) + b);
        assert(a + b =~= a.take(n + 1) + (a.skip(n + 1) + b));
    }
}

proof fn lemma_single_line(l: Seq<char>)
    requires
        is_metric_line(l),
    ensures
        is_metric_text(l),
{
    lemma_line_first(l, Seq::<char>::empty());
    assert(l + Seq::<char>::empty() =~= l);
}

proof fn lemma_decimal_on_one_line(n: nat)
    ensures
        on_one_line(decimal(n)),
    decreases n,
{
    if n >= 10 {
        lemma_decimal_on_one_line(n / 10);
    }
}

proof fn lemma_escaped_on_one_line(s: Seq<char>)
    ensures
        on_one_line(escaped(s)),
    decreases s.len(),
{
    if s.len() > 0 {
        lemma_escaped_on_one_line(s.drop_last());
    }
}

proof fn lemma_metric_lines(name: Seq<char>, help: Seq<char>, kind: Seq<char>, value: nat)
    requires
        is_plain_metric(name, help, kind),
    ensures
        is_metric_text(metric_text(name, help, kind, value)),
{
    reveal_strlit("# HELP ");
    reveal_strlit("# TYPE ");
    reveal_strlit("# HELP frps_");
    reveal_strlit("# TYPE frps_");
    reveal_strlit("\n# TYPE ");
    reveal_strlit("frps_");
    reveal_strlit(" ");
    reveal_strlit("\n");
    lemma_decimal_on_one_line(value);
    let l1 = "# HELP "@ + name + " "@ + help + "\n"@;
    let l2 = "# TYPE "@ + name + " "@ + kind + "\n"@;
    let l3 = name + " "@ + decimal(value) + "\n"@;
    assert(name.take(5) =~= "frps_"@);
    assert("# HELP frps_"@ =~= "# HELP "@ + name.take(5));
    assert("# TYPE frps_"@ =~= "# TYPE "@ + name.take(5));
    assert(l1.take(12) =~= "# HELP frps_"@);
    assert(l2.take(12) =~= "# TYPE frps_"@);
    assert(l3.take(5) =~= "frps_"@);
    assert(l1.drop_last() =~= "# HELP "@ + name + " "@ + help);
    assert(l2.drop_last() =~= "# TYPE "@ + name + " "@ + kind);
    assert(l3.drop_last() =~= name + " "@ + decimal(value));
    lemma_single_line(l3);
    lemma_line_first(l2, l3);
    lemma_line_first(l1, l2 + l3);
    assert(metric_text(name, help, kind, value) =~= l1 + (l2 + l3));
}

proof fn lemma_sample_line(metric: ProxyMetric, stat: ProxyStat)
    ensures
        is_metric_text(sample_text(metric, stat)),
{
    reveal_strlit("frps_");
    reveal_strlit("frps_proxy_conns_current");
    reveal_strlit("frps_proxy_conns_total");
    reveal_strlit("{name=\"");
    reveal_strlit("\",type=\"");
    reveal_strlit("\"}");
    reveal_strlit(" ");
    reveal_strlit("\n");
    lemma_escaped_on_one_line(stat.name@);
    lemma_escaped_on_one_line(stat.proxy_type@);
    lemma_decimal_on_one_line(metric.value(stat));
    let l = sample_text(metric, stat);
    assert(on_one_line(labels_text(stat)));
    assert(on_one_line(metric.spec_name()));
    assert(l.drop_last() =~= metric.spec_name() + labels_text(stat) + " "@ + decimal(
        metric.value(stat),
    ));
    assert(l.take(5) =~= "frps_"@);
    lemma_single_line(l);
}

proof fn lemma_samples_lines(
    metric: ProxyMetric,
    stats: Map<Seq<char>, ProxyStat>,
    order: Seq<Seq<char>>,
)
    ensures
        is_metric_text(samples_text(metric, stats, order)),
    decreases order.len(),
{
    if order.len() > 0 {
        lemma_samples_lines(metric, stats, order.drop_last());
        lemma_sample_line(metric, stats[order.last()]);
        lemma_texts_joined(
            samples_text(metric, stats, order.drop_last()),
            sample_text(metric, stats[order.last()]),
        );
    }
}

proof fn lemma_header_lines(metric: ProxyMetric)
    ensures
        is_metric_text(metric.spec_header()),
{
    reveal_strlit("# HELP frps_");
    reveal_strlit("# TYPE frps_");
    let h = metric.spec_header();
    let n: int = match metric {
        ProxyMetric::Current => 62,
        ProxyMetric::Total => 58,
    };
    match metric {
        ProxyMetric::Current => {
            reveal_strlit(
                "# HELP frps_proxy_conns_current Current connections per proxy\n# TYPE frps_proxy_conns_current gauge\n",
            );
        },
        ProxyMetric::Total => {
            reveal_strlit(
                "# HELP frps_proxy_conns_total Total connections per proxy\n# TYPE frps_proxy_conns_total counter\n",
            );
        },
    }
    let l1 = h.take(n);
    let l2 = h.skip(n);
    assert(l1.take(12) =~= "# HELP frps_"@);
    assert(l2.take(12) =~= "# TYPE frps_"@);
    lemma_single_line(l2);
    lemma_line_first(l1, l2);
    assert(h =~= l1 + l2);
}

/// Whether a metric of this name, meaning and kind is written on lines of its own.
spec fn is_plain_metric(name: Seq<char>, help: Seq<char>, kind: Seq<char>) -> bool {
    "frps_"@.is_prefix_of(name) && on_one_line(name) && on_one_line(help) && on_one_line(kind)
}

proof fn lemma_plain_metric(metric: ServerMetric)
    ensures
        is_plain_metric(metric.spec_name(), metric.spec_help(), metric.spec_kind()),
{
    reveal_strlit("frps_");
    reveal_strlit("gauge");
    reveal_strlit("counter");
    match metric {
        ServerMetric::Uptime => {
            reveal_strlit("frps_uptime_seconds");
            reveal_strlit("Server uptime in seconds");
        },
        ServerMetric::ConnectionsTotal => {
            reveal_strlit("frps_connections_total");
            reveal_strlit("Total visitor connections accepted");
        },
        ServerMetric::ConnectionsCurrent => {
            reveal_strlit("frps_connections_current");
            reveal_strlit("Current visitor connections");
        },
        ServerMetric::ProxiesTotal => {
            reveal_strlit("frps_proxies_total");
            reveal_strlit("Total proxies registered");
        },
        ServerMetric::ProxiesCurrent => {
            reveal_strlit("frps_proxies_current");
            reveal_strlit("Current registered proxies");
        },
        ServerMetric::BytesSent => {
            reveal_strlit("frps_traffic_bytes_sent_total");
            reveal_strlit("Bytes sent (not wired in dataplane, always 0)");
        },
        ServerMetric::BytesReceived => {
            reveal_strlit("frps_traffic_bytes_received_total");
            reveal_strlit("Bytes received (not wired in dataplane, always 0)");
        },
        ServerMetric::LoginSuccesses => {
            reveal_strlit("frps_login_successes_total");
            reveal_strlit("Successful client logins");
        },
        ServerMetric::LoginFailures => {
            reveal_strlit("frps_login_failures_total");
            reveal_strlit("Failed client logins");
        },
        ServerMetric::TlsRejects => {
            reveal_strlit("frps_tls_rejects_total");
            reveal_strlit("TLS handshake rejections");
        },
        ServerMetric::WorkConns => {
            reveal_strlit("frps_work_conn_total");
            reveal_strlit("Work connections registered");
        },
    }
    assert(metric.spec_name().take(5) =~= "frps_"@);
}

/// One metric more keeps a text one of metrics.
proof fn lemma_metric_added(t: Seq<char>, metric: ServerMetric, c: Counters, now: u64)
    requires
        is_metric_text(t),
    ensures
        is_metric_text(t + metric.text(c, now)),
{
    lemma_plain_metric(metric);
    lemma_metric_lines(
        metric.spec_name(),
        metric.spec_help(),
        metric.spec_kind(),
        metric.value(c, now),
    );
    lemma_texts_joined(t, metric.text(c, now));
}

proof fn lemma_server_lines(c: Counters, now: u64)
    ensures
        is_metric_text(server_text(c, now)),
{
    let t = Seq::<char>::empty();
    assert(t + ServerMetric::Uptime.text(c, now) =~= ServerMetric::Uptime.text(c, now));
    lemma_metric_added(t, ServerMetric::Uptime, c, now);
    let t = ServerMetric::Uptime.text(c, now);
    lemma_metric_added(t, ServerMetric::ConnectionsTotal, c, now);
    let t = t + ServerMetric::ConnectionsTotal.text(c, now);
    lemma_metric_added(t, ServerMetric::ConnectionsCurrent, c, now);
    let t = t + ServerMetric::ConnectionsCurrent.text(c, now);
    lemma_metric_added(t, ServerMetric::ProxiesTotal, c, now);
    let t = t + ServerMetric::ProxiesTotal.text(c, now);
    lemma_metric_added(t, ServerMetric::ProxiesCurrent, c, now);
    let t = t + ServerMetric::ProxiesCurrent.text(c, now);
    lemma_metric_added(t, ServerMetric::BytesSent, c, now);
    let t = t + ServerMetric::BytesSent.text(c, now);
    lemma_metric_added(t, ServerMetric::BytesReceived, c, now);
    let t = t + ServerMetric::BytesReceived.text(c, now);
    lemma_metric_added(t, ServerMetric::LoginSuccesses, c, now);
    let t = t + ServerMetric::LoginSuccesses.text(c, now);
    lemma_metric_added(t, ServerMetric::LoginFailures, c, now);
    let t = t + ServerMetric::LoginFailures.text(c, now);
    lemma_metric_added(t, ServerMetric::TlsRejects, c, now);
    let t = t + ServerMetric::TlsRejects.text(c, now);
    lemma_metric_added(t, ServerMetric::WorkConns, c, now);
}

/// Every line of the rendered metrics says what a metric of the server means, of what
/// kind it is, or what its value is, whatever the proxies are named; and the text
/// ends with a line feed.
pub proof fn law_every_line_is_a_metric(
    c: Counters,
    now: u64,
    stats: Map<Seq<char>, ProxyStat>,
    order: Seq<Seq<char>>,
)
    ensures
        is_metric_text(server_text(c, now) + proxies_text(stats, order)),
        (server_text(c, now) + proxies_text(stats, order)).last() == '\n',
{
    lemma_server_lines(c, now);
    let t = proxies_text(stats, order);
    if order.len() > 0 {
        let (h1, h2) = (ProxyMetric::Current.spec_header(), ProxyMetric::Total.spec_header());
        let s1 = samples_text(ProxyMetric::Current, stats, order);
        let s2 = samples_text(ProxyMetric::Total, stats, order);
        lemma_header_lines(ProxyMetric::Current);
        lemma_header_lines(ProxyMetric::Total);
        lemma_samples_lines(ProxyMetric::Current, stats, order);
        lemma_samples_lines(ProxyMetric::Total, stats, order);
        lemma_texts_joined(h1, s1);
        lemma_texts_joined(h1 + s1, h2);
        lemma_texts_joined(h1 + s1 + h2, s2);
    }
    assert(is_metric_text(t));
    lemma_texts_joined(server_text(c, now), t);
    let all = server_text(c, now) + t;
    assert(all.len() > 0) by {
        reveal_strlit("# HELP ");
    }
    lemma_ends_with_line_feed(all);
}

proof fn lemma_ends_with_line_feed(t: Seq<char>)
    requires
        is_metric_text(t),
        t.len() > 0,
    ensures
        t.last() == '\n',
    decreases t.len(),
{
    lemma_find_bound(t, '\n');
    let n = find(t, '\n') as int;
    if n + 1 < t.len() {
        lemma_ends_with_line_feed(t.skip(n + 1));
        assert(t.skip(n + 1).last() == t.last());
    }
}

} // verus!
