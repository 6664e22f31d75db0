//! Periodic checks of whether the local service behind a proxy is alive.
use crate::config::{HealthCheckConfig, ProxyConfig};
use crate::server::{host_port, join_host_port};
use crate::text::{contains, same, spec_contains};
use vstd::prelude::*;
use vstd::string::*;

verus! {

/// How a service is probed.
#[derive(Debug)]
pub enum HealthProbe {
    /// A connection to this address has to succeed.
    Tcp { addr: String },
    /// This request to this address has to be answered.
    Http { addr: String, request: String },
    /// There is no such probe: the checks end.
    Unsupported,
    /// The proxy asks for no checks.
    Off,
}

/// What came back from a probe in time.
#[derive(Debug)]
pub enum ProbeResult {
    Connected,
    Answered(String),
    Failed,
}

/// What a probe tells.
#[derive(Debug, PartialEq, Eq, Structural)]
pub enum HealthReport {
    Healthy,
    /// Healthy again, after failures.
    Recovered,
    /// This many probes in a row have failed.
    Failing { count: u32 },
    /// As many probes in a row have failed as the settings allow.
    Unhealthy,
}

/// The request of a probe over HTTP.
pub open spec fn probe_request(path: Seq<char>, host: Seq<char>) -> Seq<char> {
    "GET "@ + path + " HTTP/1.0\r\nHost: "@ + host + "\r\nConnection: close\r\n\r\n"@
}

/// `p` is how the service behind a proxy is probed.
pub open spec fn is_probe_of(config: ProxyConfig, p: HealthProbe) -> bool {
    let target = host_port(config.local_ip@, config.local_port);
    match config.health_check {
        Some(hc) => if hc.kind@ == "tcp"@ {
            p matches HealthProbe::Tcp { addr } && addr@ == target
        } else if hc.kind@ == "http"@ {
            p matches HealthProbe::Http { addr, request } && addr@ == target && request@
                == probe_request(
                match hc.path {
                    Some(path) => path@,
                    None => "/"@,
                },
                config.local_ip@,
            )
        } else {
            p is Unsupported
        },
        None => p is Off,
    }
}

/// Whether a service answered a probe over HTTP as it should.
pub open spec fn good_answer(response: Seq<char>) -> bool {
    spec_contains(response, "200 OK"@) || spec_contains(response, "HTTP/1."@)
}

/// Whether a service answered a probe over HTTP as it should.
pub fn is_good_answer(response: &str) -> (b: bool)
    ensures
        b == good_answer(response@),
{
    contains(response, "200 OK") || contains(response, "HTTP/1.")
}

/// Whether what came back from a probe is a success.
pub open spec fn probe_succeeded(r: ProbeResult) -> bool {
    match r {
        ProbeResult::Connected => true,
        ProbeResult::Answered(text) => good_answer(text@),
        ProbeResult::Failed => false,
    }
}

/// At least one second.
pub open spec fn at_least_one(seconds: u32) -> int {
    if seconds == 0 {
        1
    } else {
        seconds as int
    }
}

fn seconds_or_one(seconds: u32) -> (s: u64)
    ensures
        s == at_least_one(seconds),
{
    if seconds == 0 {
        1
    } else {
        seconds as u64
    }
}

/// Whether another failure is one too many.
pub open spec fn is_last_failure(failures: int, limit: int) -> bool {
    failures + 1 >= limit
}

/// The failures that are counted after another one: none after the last.
pub open spec fn after_failure(failures: int, limit: int) -> int {
    if is_last_failure(failures, limit) {
        0
    } else {
        failures + 1
    }
}

/// The checks of the service behind one proxy.
pub struct HealthChecker {
    config: ProxyConfig,
    failed_count: u32,
}

impl HealthChecker {
    /// The settings of the proxy.
    pub closed spec fn config(self) -> ProxyConfig {
        self.config
    }

    /// The failures since the last success or report.
    pub closed spec fn failures(self) -> int {
        self.failed_count as int
    }

    /// The failures in a row that make a service unhealthy.
    pub open spec fn limit(self) -> u32 {
        match self.config().health_check {
            Some(hc) => hc.max_failed,
            None => 0,
        }
    }

    /// As many failures as are allowed are never counted: they are reported.
    pub open spec fn wf(self) -> bool {
        0 <= self.failures() < at_least_one(self.limit())
    }

    /// The checks of a proxy.
    pub fn new(config: ProxyConfig) -> (c: Self)
        ensures
            c.wf(),
            c.failures() == 0,
            c.config() == config,
    {
        HealthChecker { config, failed_count: 0 }
    }

    /// The pause between two probes; nothing where the proxy asks for no checks.
    pub fn interval_seconds(&self) -> (s: Option<u64>)
        ensures
            match (s, self.config().health_check) {
                (Some(s), Some(hc)) => s == at_least_one(hc.interval_seconds),
                (None, None) => true,
                _ => false,
            },
    {
        match &self.config.health_check {
            Some(hc) => Some(seconds_or_one(hc.interval_seconds)),
            None => None,
        }
    }

    /// The time after which a probe has failed; nothing where the proxy asks for no
    /// checks.
    pub fn timeout_seconds(&self) -> (s: Option<u64>)
        ensures
            match (s, self.config().health_check) {
                (Some(s), Some(hc)) => s == at_least_one(hc.timeout_seconds),
                (None, None) => true,
                _ => false,
            },
    {
        match &self.config.health_check {
            Some(hc) => Some(seconds_or_one(hc.timeout_seconds)),
            None => None,
        }
    }

    /// The next probe.
    pub fn probe(&self) -> (p: HealthProbe)
        ensures
            is_probe_of(self.config(), p),
    {
        let hc: &HealthCheckConfig = match &self.config.health_check {
            Some(hc) => hc,
            None => {
                return HealthProbe::Off;
            },
        };
        let addr: String = join_host_port(self.config.local_ip.as_str(), self.config.local_port);
        if same(hc.kind.as_str(), "tcp") {
            return HealthProbe::Tcp { addr };
        }
        if !same(hc.kind.as_str(), "http") {
            return HealthProbe::Unsupported;
        }
        let mut request: String = "GET ".to_string();
        match &hc.path {
            Some(path) => request.append(path.as_str()),
            None => request.append("/"),
        }
        request.append(" HTTP/1.0\r\nHost: ");
        request.append(self.config.local_ip.as_str());
        request.append("\r\nConnection: close\r\n\r\n");
        HealthProbe::Http { addr, request }
    }

    /// Counts what came back from a probe.
    pub fn record(&mut self, result: ProbeResult) -> (report: HealthReport)
        requires
            old(self).wf(),
        ensures
            final(self).wf(),
            final(self).config() == old(self).config(),
            if probe_succeeded(result) {
                &&& final(self).failures() == 0
                &&& report == (if old(self).failures() > 0 {
                    HealthReport::Recovered
                } else {
                    HealthReport::Healthy
                })
            } else {
                &&& final(self).failures() == after_failure(
                    old(self).failures(),
                    old(self).limit() as int,
                )
                &&& report == (if is_last_failure(old(self).failures(), old(self).limit() as int) {
                    HealthReport::Unhealthy
                } else {
                    HealthReport::Failing { count: (old(self).failures() + 1) as u32 }
                })
            },
    {
        let good: bool = match &result {
            ProbeResult::Connected => true,
            ProbeResult::Answered(text) => is_good_answer(text.as_str()),
            ProbeResult::Failed => false,
        };
        if good {
            let recovered: bool = self.failed_count > 0;
            self.failed_count = 0;
            return if recovered {
                HealthReport::Recovered
            } else {
                HealthReport::Healthy
            };
        }
        let max_failed: u32 = match &self.config.health_check {
            Some(hc) => hc.max_failed,
            None => 0,
        };
        if self.failed_count + 1 >= max_failed {
            self.failed_count = 0;
            return HealthReport::Unhealthy;
        }
        self.failed_count = self.failed_count + 1;
        HealthReport::Failing { count: self.failed_count }
    }
}

/// The failures that are counted after `n` probes in a row failed, from none.
pub open spec fn failures_after(n: nat, limit: int) -> int
    decreases n,
{
    if n == 0 {
        0
    } else {
        after_failure(failures_after((n - 1) as nat, limit), limit)
    }
}

/// A service is reported as unhealthy exactly when as many probes in a row have
/// failed as the settings allow, and then the count starts anew.
pub proof fn law_unhealthy_after_max_failed(n: nat, limit: int)
    requires
        n < limit,
    ensures
        failures_after(n, limit) == n,
        is_last_failure(failures_after(n, limit), limit) == (n + 1 == limit),
        n + 1 == limit ==> failures_after(n + 1, limit) == 0,
    decreases n,
{
    if n > 0 {
        law_unhealthy_after_max_failed((n - 1) as nat, limit);
    }
}

} // verus!
