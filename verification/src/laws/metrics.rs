//! What a server counts and shows of itself.
use crate::metrics::{
    escaped, sample_text, samples_text, server_text, Counters, MetricsSnapshot, MonitorMetrics,
    ProxyConnGuard, ProxyMetric, ProxyStat, ServerMetric,
};
use crate::text::decimal;
use vstd::prelude::*;
use vstd::string::*;

verus! {

/// `part` stands somewhere in `text`.
pub open spec fn holds(text: Seq<char>, part: Seq<char>) -> bool {
    exists|a: Seq<char>, b: Seq<char>| text == #[trigger] (a + part + b)
}

/// The kind and the value of a metric, as they are written.
pub open spec fn shown(name: Seq<char>, kind: Seq<char>, value: nat) -> Seq<char> {
    "\n# TYPE "@ + name + " "@ + kind + "\n"@ + name + " "@ + decimal(value) + "\n"@
}

proof fn lemma_held_in_part(a: Seq<char>, b: Seq<char>, part: Seq<char>)
    ensures
        holds(a, part) ==> holds(a + b, part),
        holds(b, part) ==> holds(a + b, part),
{
    if holds(a, part) {
        let (x, y) = choose|x: Seq<char>, y: Seq<char>| a == #[trigger] (x + part + y);
        assert(a + b =~= x + part + (y + b));
    }
    if holds(b, part) {
        let (x, y) = choose|x: Seq<char>, y: Seq<char>| b == #[trigger] (x + part + y);
        assert(a + b =~= (a + x) + part + y);
    }
}

/// What is written of a metric of the server.
pub open spec fn shown_of(metric: ServerMetric, c: Counters, now: u64) -> Seq<char> {
    shown(metric.spec_name(), metric.spec_kind(), metric.value(c, now))
}

proof fn lemma_metric_shown(metric: ServerMetric, c: Counters, now: u64)
    ensures
        holds(metric.text(c, now), shown_of(metric, c, now)),
{
    let head = "# HELP "@ + metric.spec_name() + " "@ + metric.spec_help();
    let part = shown_of(metric, c, now);
    assert(metric.text(c, now) =~= head + part + Seq::<char>::empty());
}

proof fn lemma_server_metric_shown(metric: ServerMetric, c: Counters, now: u64, rest: Seq<char>)
    ensures
        holds(server_text(c, now) + rest, shown_of(metric, c, now)),
{
    let part = shown_of(metric, c, now);
    lemma_metric_shown(metric, c, now);
    let t1 = ServerMetric::ConnectionsTotal.text(c, now);
    let t2 = ServerMetric::ConnectionsCurrent.text(c, now);
    let t3 = ServerMetric::ProxiesTotal.text(c, now);
    let t4 = ServerMetric::ProxiesCurrent.text(c, now);
    let t5 = ServerMetric::BytesSent.text(c, now);
    let t6 = ServerMetric::BytesReceived.text(c, now);
    let t7 = ServerMetric::LoginSuccesses.text(c, now);
    let t8 = ServerMetric::LoginFailures.text(c, now);
    let t9 = ServerMetric::TlsRejects.text(c, now);
    let t10 = ServerMetric::WorkConns.text(c, now);
    let p0 = ServerMetric::Uptime.text(c, now);
    let p1 = p0 + t1;
    let p2 = p1 + t2;
    let p3 = p2 + t3;
    let p4 = p3 + t4;
    let p5 = p4 + t5;
    let p6 = p5 + t6;
    let p7 = p6 + t7;
    let p8 = p7 + t8;
    let p9 = p8 + t9;
    lemma_held_in_part(p0, t1, part);
    lemma_held_in_part(p1, t2, part);
    lemma_held_in_part(p2, t3, part);
    lemma_held_in_part(p3, t4, part);
    lemma_held_in_part(p4, t5, part);
    lemma_held_in_part(p5, t6, part);
    lemma_held_in_part(p6, t7, part);
    lemma_held_in_part(p7, t8, part);
    lemma_held_in_part(p8, t9, part);
    lemma_held_in_part(p9, t10, part);
    lemma_held_in_part(server_text(c, now), rest, part);
}

/// The text for Prometheus shows what the status page shows, and what is counted beside
/// it: each number under its own name, as a gauge where it can fall and as a counter where
/// it cannot.
pub proof fn law_counters_are_shown(
    metrics: MonitorMetrics,
    now: u64,
    page: MetricsSnapshot,
    text: String,
)
    requires
        call_ensures(MonitorMetrics::get_metrics, (&metrics, now), page),
        call_ensures(MonitorMetrics::render_prometheus, (&metrics, now), text),
    ensures
        holds(text@, shown("frps_uptime_seconds"@, "gauge"@, page.uptime as nat)),
        holds(
            text@,
            shown("frps_connections_total"@, "counter"@, page.total_connections as nat),
        ),
        holds(
            text@,
            shown("frps_connections_current"@, "gauge"@, page.current_connections as nat),
        ),
        holds(text@, shown("frps_proxies_total"@, "counter"@, page.total_proxies as nat)),
        holds(text@, shown("frps_proxies_current"@, "gauge"@, page.current_proxies as nat)),
        holds(text@, shown("frps_traffic_bytes_sent_total"@, "counter"@, page.bytes_sent as nat)),
        holds(
            text@,
            shown("frps_traffic_bytes_received_total"@, "counter"@, page.bytes_received as nat),
        ),
        holds(
            text@,
            shown(
                "frps_login_successes_total"@,
                "counter"@,
                metrics.counters().login_successes as nat,
            ),
        ),
        holds(
            text@,
            shown(
                "frps_login_failures_total"@,
                "counter"@,
                metrics.counters().login_failures as nat,
            ),
        ),
        holds(
            text@,
            shown("frps_tls_rejects_total"@, "counter"@, metrics.counters().tls_rejects as nat),
        ),
        holds(
            text@,
            shown("frps_work_conn_total"@, "counter"@, metrics.counters().work_conn_total as nat),
        ),
{
    let c = metrics.counters();
    let rest = crate::metrics::proxies_text(metrics.stats(), metrics.order());
    lemma_server_metric_shown(ServerMetric::Uptime, c, now, rest);
    lemma_server_metric_shown(ServerMetric::ConnectionsTotal, c, now, rest);
    lemma_server_metric_shown(ServerMetric::ConnectionsCurrent, c, now, rest);
    lemma_server_metric_shown(ServerMetric::ProxiesTotal, c, now, rest);
    lemma_server_metric_shown(ServerMetric::ProxiesCurrent, c, now, rest);
    lemma_server_metric_shown(ServerMetric::BytesSent, c, now, rest);
    lemma_server_metric_shown(ServerMetric::BytesReceived, c, now, rest);
    lemma_server_metric_shown(ServerMetric::LoginSuccesses, c, now, rest);
    lemma_server_metric_shown(ServerMetric::LoginFailures, c, now, rest);
    lemma_server_metric_shown(ServerMetric::TlsRejects, c, now, rest);
    lemma_server_metric_shown(ServerMetric::WorkConns, c, now, rest);
}

proof fn lemma_plain_is_kept(s: Seq<char>)
    requires
        !s.contains('\\'),
        !s.contains('"'),
        !s.contains('\n'),
    ensures
        escaped(s) == s,
    decreases s.len(),
{
    if s.len() > 0 {
        let l = s.drop_last();
        assert(s.contains(s[s.len() - 1]));
        assert forall|c: char| l.contains(c) implies s.contains(c) by {
            let k = l.index_of(c);
            assert(s[k] == c);
        }
        lemma_plain_is_kept(l);
        assert(s =~= l + seq![s.last()]);
        assert(escaped(s) =~= s);
    }
}

proof fn lemma_sample_held(
    metric: ProxyMetric,
    stats: Map<Seq<char>, ProxyStat>,
    order: Seq<Seq<char>>,
    name: Seq<char>,
)
    requires
        order.contains(name),
    ensures
        holds(samples_text(metric, stats, order), sample_text(metric, stats[name])),
    decreases order.len(),
{
    let l = order.drop_last();
    let part = sample_text(metric, stats[name]);
    let none = Seq::<char>::empty();
    if order.last() == name {
        assert(part =~= none + part + none);
    } else {
        let k = order.index_of(name);
        assert(l[k] == name);
        lemma_sample_held(metric, stats, l, name);
    }
    lemma_held_in_part(
        samples_text(metric, stats, l),
        sample_text(metric, stats[order.last()]),
        part,
    );
}

proof fn lemma_plain_sample(stat: ProxyStat)
    requires
        escaped(stat.name@) == stat.name@,
        escaped(stat.proxy_type@) == stat.proxy_type@,
    ensures
        sample_text(ProxyMetric::Current, stat) == "frps_proxy_conns_current{name=\""@ + stat.name@
            + "\",type=\""@ + stat.proxy_type@ + "\"} "@ + decimal(stat.current_conns as nat) + "\n"@,
        sample_text(ProxyMetric::Total, stat) == "frps_proxy_conns_total{name=\""@ + stat.name@
            + "\",type=\""@ + stat.proxy_type@ + "\"} "@ + decimal(stat.total_conns as nat) + "\n"@,
{
    assert("frps_proxy_conns_current"@ + "{name=\""@ =~= "frps_proxy_conns_current{name=\""@) by {
        reveal_strlit("frps_proxy_conns_current{name=\"");
        reveal_strlit("frps_proxy_conns_current");
        reveal_strlit("{name=\"");
    }
    assert("frps_proxy_conns_total"@ + "{name=\""@ =~= "frps_proxy_conns_total{name=\""@) by {
        reveal_strlit("frps_proxy_conns_total{name=\"");
        reveal_strlit("frps_proxy_conns_total");
        reveal_strlit("{name=\"");
    }
    assert("\"}"@ + " "@ =~= "\"} "@) by {
        reveal_strlit("\"}");
        reveal_strlit(" ");
        reveal_strlit("\"} ");
    }
    assert(sample_text(ProxyMetric::Current, stat) =~= ("frps_proxy_conns_current"@ + "{name=\""@)
        + stat.name@ + "\",type=\""@ + stat.proxy_type@ + ("\"}"@ + " "@) + decimal(
        stat.current_conns as nat,
    ) + "\n"@);
    assert(sample_text(ProxyMetric::Total, stat) =~= ("frps_proxy_conns_total"@ + "{name=\""@)
        + stat.name@ + "\",type=\""@ + stat.proxy_type@ + ("\"}"@ + " "@) + decimal(
        stat.total_conns as nat,
    ) + "\n"@);
}

/// Every proxy that is counted is shown with its connections, those now and those so far,
/// under its name and its type. Names are written as they are where they hold no
/// backslash, quote or line feed.
pub proof fn law_proxies_are_shown(
    metrics: MonitorMetrics,
    now: u64,
    name: &str,
    stat: &ProxyStat,
    text: String,
)
    requires
        call_ensures(MonitorMetrics::get_proxy_stat, (&metrics, name), Some(stat)),
        call_ensures(MonitorMetrics::render_prometheus, (&metrics, now), text),
        !name@.contains('\\') && !name@.contains('"') && !name@.contains('\n'),
        !stat.proxy_type@.contains('\\') && !stat.proxy_type@.contains('"')
            && !stat.proxy_type@.contains('\n'),
    ensures
        holds(
            text@,
            "frps_proxy_conns_current{name=\""@ + name@ + "\",type=\""@ + stat.proxy_type@ + "\"} "@
                + decimal(stat.current_conns as nat) + "\n"@,
        ),
        holds(
            text@,
            "frps_proxy_conns_total{name=\""@ + name@ + "\",type=\""@ + stat.proxy_type@ + "\"} "@
                + decimal(stat.total_conns as nat) + "\n"@,
        ),
{
    let order = metrics.order();
    let stats = metrics.stats();
    assert(order.to_set().contains(name@));
    assert(stat.name@ == name@);
    lemma_plain_is_kept(name@);
    lemma_plain_is_kept(stat.proxy_type@);
    lemma_plain_sample(*stat);
    lemma_sample_held(ProxyMetric::Current, stats, order, name@);
    lemma_sample_held(ProxyMetric::Total, stats, order, name@);
    let head = server_text(metrics.counters(), now);
    let h1 = ProxyMetric::Current.spec_header();
    let h2 = ProxyMetric::Total.spec_header();
    let s1 = samples_text(ProxyMetric::Current, stats, order);
    let s2 = samples_text(ProxyMetric::Total, stats, order);
    let v1 = sample_text(ProxyMetric::Current, *stat);
    let v2 = sample_text(ProxyMetric::Total, *stat);
    lemma_held_in_part(h1, s1, v1);
    lemma_held_in_part(h1 + s1, h2, v1);
    lemma_held_in_part(h1 + s1 + h2, s2, v1);
    lemma_held_in_part(h1 + s1 + h2, s2, v2);
    lemma_held_in_part(head, h1 + s1 + h2 + s2, v1);
    lemma_held_in_part(head, h1 + s1 + h2 + s2, v2);
    assert(order.len() > 0);
    assert(text@ == head + (h1 + s1 + h2 + s2));
}

/// A connection of a proxy is counted while it lasts, and stays in the count of all.
pub proof fn law_connections_of_a_proxy_are_counted(
    m0: &mut MonitorMetrics,
    m1: &mut MonitorMetrics,
    m2: &mut MonitorMetrics,
    name: &str,
    kind: &str,
    port: Option<u16>,
    guard: Option<ProxyConnGuard>,
    fresh: Option<&ProxyStat>,
    during: Option<&ProxyStat>,
    after: Option<&ProxyStat>,
)
    requires
        call_ensures(MonitorMetrics::register_proxy_stat, (m0, name, kind, port), ()),
        call_ensures(MonitorMetrics::get_proxy_stat, (&*final(m0), name), fresh),
        *old(m1) == *final(m0),
        call_ensures(ProxyConnGuard::acquire, (m1, name), guard),
        call_ensures(MonitorMetrics::get_proxy_stat, (&*final(m1), name), during),
        *old(m2) == *final(m1),
        guard is Some ==> call_ensures(ProxyConnGuard::release, (guard->0, m2), ()),
        call_ensures(MonitorMetrics::get_proxy_stat, (&*final(m2), name), after),
    ensures
        fresh is Some && fresh->0.current_conns == 0 && fresh->0.total_conns == 0,
        fresh->0.name@ == name@ && fresh->0.proxy_type@ == kind@ && fresh->0.remote_port == port,
        guard is Some,
        during is Some && during->0.current_conns == 1 && during->0.total_conns == 1,
        after is Some && after->0.current_conns == 0 && after->0.total_conns == 1,
        during->0.name@ == name@ && after->0.name@ == name@,
{
}

/// A connection that began before a proxy was registered anew does not change the counts
/// of the new registration when it ends.
pub proof fn law_old_connections_do_not_count(
    m0: &mut MonitorMetrics,
    m1: &mut MonitorMetrics,
    m2: &mut MonitorMetrics,
    name: &str,
    kind: &str,
    port: Option<u16>,
    guard: ProxyConnGuard,
    before: Option<&ProxyStat>,
    after: Option<&ProxyStat>,
)
    requires
        call_ensures(ProxyConnGuard::acquire, (m0, name), Some(guard)),
        old(m0).stats()[name@].generation != old(m0).generations(),
        *old(m1) == *final(m0),
        call_ensures(MonitorMetrics::register_proxy_stat, (m1, name, kind, port), ()),
        call_ensures(MonitorMetrics::get_proxy_stat, (&*final(m1), name), before),
        *old(m2) == *final(m1),
        call_ensures(ProxyConnGuard::release, (guard, m2), ()),
        call_ensures(MonitorMetrics::get_proxy_stat, (&*final(m2), name), after),
    ensures
        before == after,
        after is Some && after->0.current_conns == 0,
{
}

/// A proxy that is not counted any more has no counts, and its visitors are not counted.
pub proof fn law_removed_proxies_are_not_counted(
    m0: &mut MonitorMetrics,
    m1: &mut MonitorMetrics,
    name: &str,
    stat: Option<&ProxyStat>,
    guard: Option<ProxyConnGuard>,
)
    requires
        call_ensures(MonitorMetrics::remove_proxy_stat, (m0, name), ()),
        call_ensures(MonitorMetrics::get_proxy_stat, (&*final(m0), name), stat),
        *old(m1) == *final(m0),
        call_ensures(ProxyConnGuard::acquire, (m1, name), guard),
    ensures
        stat is None,
        guard is None,
{
}

/// Visitors and proxies are counted while they last, and in all; traffic adds up. A server
/// that was just started has counted nothing, and its time counts from its start.
pub proof fn law_server_counts(
    fresh: MonitorMetrics,
    c0: &mut MonitorMetrics,
    c1: &mut MonitorMetrics,
    p0: &mut MonitorMetrics,
    p1: &mut MonitorMetrics,
    s: &mut MonitorMetrics,
    r: &mut MonitorMetrics,
    start: u64,
    now: u64,
    sent: usize,
    received: usize,
    begin: MetricsSnapshot,
    one: MetricsSnapshot,
    end: MetricsSnapshot,
)
    requires
        call_ensures(MonitorMetrics::new, (start,), fresh),
        call_ensures(MonitorMetrics::get_metrics, (&fresh, now), begin),
        *old(c0) == fresh,
        call_ensures(MonitorMetrics::increment_connections, (c0,), ()),
        *old(p0) == *final(c0),
        call_ensures(MonitorMetrics::increment_proxies, (p0,), ()),
        *old(s) == *final(p0),
        call_ensures(MonitorMetrics::add_bytes_sent, (s, sent), ()),
        *old(r) == *final(s),
        call_ensures(MonitorMetrics::add_bytes_received, (r, received), ()),
        call_ensures(MonitorMetrics::get_metrics, (&*final(r), now), one),
        *old(c1) == *final(r),
        call_ensures(MonitorMetrics::decrement_connections, (c1,), ()),
        *old(p1) == *final(c1),
        call_ensures(MonitorMetrics::decrement_proxies, (p1,), ()),
        call_ensures(MonitorMetrics::get_metrics, (&*final(p1), now), end),
        start <= now,
    ensures
        begin.total_connections == 0 && begin.current_connections == 0 && begin.total_proxies == 0
            && begin.current_proxies == 0 && begin.bytes_sent == 0 && begin.bytes_received == 0,
        one.total_connections == 1 && one.current_connections == 1,
        one.total_proxies == 1 && one.current_proxies == 1,
        one.bytes_sent == sent && one.bytes_received == received,
        end.total_connections == 1 && end.current_connections == 0,
        end.total_proxies == 1 && end.current_proxies == 0,
        end.bytes_sent == sent && end.bytes_received == received,
        begin.uptime == now - start && end.uptime == now - start,
{
}

/// Each of these events is counted by itself.
pub proof fn law_events_are_counted(
    a: &mut MonitorMetrics,
    b: &mut MonitorMetrics,
    c: &mut MonitorMetrics,
    d: &mut MonitorMetrics,
)
    requires
        call_ensures(MonitorMetrics::incr_login_successes, (a,), ()),
        call_ensures(MonitorMetrics::incr_login_failures, (b,), ()),
        call_ensures(MonitorMetrics::incr_tls_rejects, (c,), ()),
        call_ensures(MonitorMetrics::incr_work_conn_total, (d,), ()),
    ensures
        old(a).counters().login_successes < usize::MAX ==> final(a).counters().login_successes == old(
            a).counters().login_successes + 1,
        final(a).counters().login_failures == old(a).counters().login_failures,
        old(b).counters().login_failures < usize::MAX ==> final(b).counters().login_failures == old(
            b).counters().login_failures + 1,
        final(b).counters().login_successes == old(b).counters().login_successes,
        old(c).counters().tls_rejects < usize::MAX ==> final(c).counters().tls_rejects == old(
            c).counters().tls_rejects + 1,
        old(d).counters().work_conn_total < usize::MAX ==> final(d).counters().work_conn_total
            == old(d).counters().work_conn_total + 1,
{
}

/// A server is up for as long as it has run, in seconds, and for no time where its clock
/// ran back.
pub proof fn law_time_up(start: u64, fresh: MonitorMetrics, now: u64, secs: u64)
    requires
        call_ensures(MonitorMetrics::new, (start,), fresh),
        call_ensures(MonitorMetrics::uptime, (&fresh, now), secs),
    ensures
        now >= start ==> secs == now - start,
        now < start ==> secs == 0,
{
}

} // verus!
