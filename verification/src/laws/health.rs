//! Probes of local services.
use crate::config::ProxyConfig;
use crate::health::{is_good_answer, HealthChecker, HealthProbe, HealthReport, ProbeResult};
use crate::text::{decimal, spec_contains};
use vstd::prelude::*;
use vstd::string::*;

verus! {

proof fn lemma_occurs(s: Seq<char>, pat: Seq<char>, i: int)
    requires
        0 <= i <= s.len() - pat.len(),
        s.subrange(i, i + pat.len()) == pat,
    ensures
        spec_contains(s, pat),
{
}

/// A service that answers with a status line of HTTP/1.0 or HTTP/1.1, or with a text
/// that says `200 OK`, is alive: the answer is no failure, and ends a row of failures.
pub proof fn law_http_answer_is_a_success(
    checker: &mut HealthChecker,
    text: String,
    report: HealthReport,
    at: int,
)
    requires
        old(checker).wf(),
        call_ensures(HealthChecker::record, (checker, ProbeResult::Answered(text)), report),
        ({
            ||| "HTTP/1.0 "@.is_prefix_of(text@)
            ||| "HTTP/1.1 "@.is_prefix_of(text@)
            ||| (0 <= at <= text@.len() - 6 && text@.subrange(at, at + 6) == "200 OK"@)
        }),
    ensures
        report is Healthy || report is Recovered,
        final(checker).failures() == 0,
{
    reveal_strlit("200 OK");
    reveal_strlit("HTTP/1.");
    reveal_strlit("HTTP/1.0 ");
    reveal_strlit("HTTP/1.1 ");
    if "HTTP/1.0 "@.is_prefix_of(text@) {
        assert("HTTP/1.0 "@.subrange(0, 7) =~= "HTTP/1."@);
        assert(text@.subrange(0, 7) =~= "HTTP/1.0 "@.subrange(0, 7));
        lemma_occurs(text@, "HTTP/1."@, 0);
    } else if "HTTP/1.1 "@.is_prefix_of(text@) {
        assert("HTTP/1.1 "@.subrange(0, 7) =~= "HTTP/1."@);
        assert(text@.subrange(0, 7) =~= "HTTP/1.1 "@.subrange(0, 7));
        lemma_occurs(text@, "HTTP/1."@, 0);
    } else {
        lemma_occurs(text@, "200 OK"@, at);
    }
}

/// An answer that says neither `HTTP/1.` nor `200 OK` anywhere is a failure.
pub proof fn law_other_answer_is_a_failure(
    checker: &mut HealthChecker,
    text: String,
    report: HealthReport,
)
    requires
        old(checker).wf(),
        call_ensures(HealthChecker::record, (checker, ProbeResult::Answered(text)), report),
        forall|i: int|
            0 <= i <= text@.len() - 7 ==> #[trigger] text@.subrange(i, i + 7) != "HTTP/1."@,
        forall|i: int|
            0 <= i <= text@.len() - 6 ==> #[trigger] text@.subrange(i, i + 6) != "200 OK"@,
    ensures
        report is Failing || report is Unhealthy,
{
    reveal_strlit("200 OK");
    reveal_strlit("HTTP/1.");
}

/// A connection that came about is a success, and one that did not is a failure.
pub proof fn law_connection_decides(
    checker: &mut HealthChecker,
    result: ProbeResult,
    report: HealthReport,
)
    requires
        old(checker).wf(),
        call_ensures(HealthChecker::record, (checker, result), report),
    ensures
        result is Connected ==> (report is Healthy || report is Recovered),
        result is Failed ==> (report is Failing || report is Unhealthy),
{
}

/// Failures in a row are counted one by one. The service is unhealthy as soon as there
/// are as many as the settings allow, and the count then starts anew.
pub proof fn law_failures_are_counted(
    first: &mut HealthChecker,
    second: &mut HealthChecker,
    result: ProbeResult,
    before: HealthReport,
    after: HealthReport,
)
    requires
        old(first).wf(),
        old(first).config().health_check is Some,
        call_ensures(HealthChecker::record, (first, result), before),
        *old(second) == *final(first),
        call_ensures(HealthChecker::record, (second, ProbeResult::Failed), after),
    ensures
        ({
            let allowed = old(first).config().health_check->0.max_failed;
            let so_far: int = match before {
                HealthReport::Failing { count } => count as int,
                _ => 0,
            };
            if so_far + 1 >= allowed {
                after is Unhealthy
            } else {
                after == HealthReport::Failing { count: (so_far + 1) as u32 }
            }
        }),
{
}

/// A success after a failure that was not the last one is reported as a recovery, and
/// after anything else as health.
pub proof fn law_recovery_follows_failure(
    first: &mut HealthChecker,
    second: &mut HealthChecker,
    result: ProbeResult,
    before: HealthReport,
    after: HealthReport,
)
    requires
        old(first).wf(),
        call_ensures(HealthChecker::record, (first, result), before),
        *old(second) == *final(first),
        call_ensures(HealthChecker::record, (second, ProbeResult::Connected), after),
    ensures
        after == (if before is Failing {
            HealthReport::Recovered
        } else {
            HealthReport::Healthy
        }),
{
}

/// A new check has no failures behind it: the first success is health, and the first
/// failure is counted as one.
pub proof fn law_checks_start_without_failures(
    config: ProxyConfig,
    made: HealthChecker,
    checker: &mut HealthChecker,
    result: ProbeResult,
    report: HealthReport,
)
    requires
        call_ensures(HealthChecker::new, (config,), made),
        *old(checker) == made,
        call_ensures(HealthChecker::record, (checker, result), report),
        config.health_check is Some,
        config.health_check->0.max_failed > 1,
    ensures
        result is Connected ==> report is Healthy,
        result is Failed ==> report == (HealthReport::Failing { count: 1 }),
{
}

/// The probe goes to the local service of the proxy, over TCP or HTTP as the settings
/// say; over HTTP it asks for the path of the settings, or for the root.
pub proof fn law_probe_asks_the_local_service(
    config: ProxyConfig,
    checker: HealthChecker,
    probe: HealthProbe,
)
    requires
        call_ensures(HealthChecker::new, (config,), checker),
        call_ensures(HealthChecker::probe, (&checker,), probe),
    ensures
        config.health_check is None <==> probe is Off,
        config.health_check matches Some(hc) ==> {
            let target = config.local_ip@ + ":"@ + decimal(config.local_port as nat);
            &&& hc.kind@ == "tcp"@ ==> (probe matches HealthProbe::Tcp { addr } && addr@ == target)
            &&& hc.kind@ == "http"@ ==> (probe matches HealthProbe::Http { addr, request } && {
                &&& addr@ == target
                &&& request@ == "GET "@ + (if hc.path is Some {
                    hc.path->0@
                } else {
                    "/"@
                }) + " HTTP/1.0\r\nHost: "@ + config.local_ip@ + "\r\nConnection: close\r\n\r\n"@
            })
            &&& hc.kind@ != "tcp"@ && hc.kind@ != "http"@ ==> probe is Unsupported
        },
{
    reveal_strlit("tcp");
    reveal_strlit("http");
    assert("tcp"@.len() != "http"@.len());
}

/// Probes come at the interval of the settings and end after their timeout, each at
/// least a second.
pub proof fn law_probes_keep_the_times_of_the_settings(
    config: ProxyConfig,
    checker: HealthChecker,
    interval: Option<u64>,
    timeout: Option<u64>,
)
    requires
        call_ensures(HealthChecker::new, (config,), checker),
        call_ensures(HealthChecker::interval_seconds, (&checker,), interval),
        call_ensures(HealthChecker::timeout_seconds, (&checker,), timeout),
    ensures
        config.health_check is None ==> interval is None && timeout is None,
        config.health_check matches Some(hc) ==> {
            &&& interval matches Some(s) && s >= 1 && (hc.interval_seconds > 0 ==> s
                == hc.interval_seconds) && (hc.interval_seconds == 0 ==> s == 1)
            &&& timeout matches Some(s) && s >= 1 && (hc.timeout_seconds > 0 ==> s
                == hc.timeout_seconds) && (hc.timeout_seconds == 0 ==> s == 1)
        },
{
}

/// An answer counts as good exactly where recording it is a success.
pub proof fn law_good_answers_are_successes(
    checker: &mut HealthChecker,
    text: String,
    response: &str,
    good: bool,
    report: HealthReport,
)
    requires
        old(checker).wf(),
        response@ == text@,
        call_ensures(is_good_answer, (response,), good),
        call_ensures(HealthChecker::record, (checker, ProbeResult::Answered(text)), report),
    ensures
        good == (report is Healthy || report is Recovered),
{
}

} // verus!
