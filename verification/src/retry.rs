//! Trying again after a failure.
use crate::streams::least;
use vstd::prelude::*;
use vstd::string::*;

verus! {

/// An error of which it is known whether trying again may help.
pub trait RetryableError {
    /// Whether trying again may help.
    spec fn retryable(&self) -> bool;

    /// Whether trying again may help.
    fn is_retryable(&self) -> (b: bool)
        ensures
            b == self.retryable(),
    ;
}

/// What kind of I/O error a connection met.
#[derive(Debug, Clone, Copy, PartialEq, Eq, Structural)]
pub enum IoErrorKind {
    ConnectionRefused,
    ConnectionReset,
    ConnectionAborted,
    TimedOut,
    NotConnected,
    Other,
}

/// Why a connection failed.
#[derive(Debug)]
pub enum ConnectionError {
    Io { kind: IoErrorKind, text: String },
    Timeout,
    Refused,
    Reset,
    Other(String),
}

/// The reason that an I/O error stands for.
pub open spec fn reason_of(kind: IoErrorKind, text: String) -> ConnectionError {
    match kind {
        IoErrorKind::ConnectionRefused => ConnectionError::Refused,
        IoErrorKind::ConnectionReset => ConnectionError::Reset,
        IoErrorKind::ConnectionAborted => ConnectionError::Reset,
        IoErrorKind::TimedOut => ConnectionError::Timeout,
        _ => ConnectionError::Io { kind, text },
    }
}

impl ConnectionError {
    /// The reason that an I/O error with this text stands for.
    pub fn from_io(kind: IoErrorKind, text: String) -> (e: Self)
        ensures
            e == reason_of(kind, text),
    {
        match kind {
            IoErrorKind::ConnectionRefused => ConnectionError::Refused,
            IoErrorKind::ConnectionReset => ConnectionError::Reset,
            IoErrorKind::ConnectionAborted => ConnectionError::Reset,
            IoErrorKind::TimedOut => ConnectionError::Timeout,
            _ => ConnectionError::Io { kind, text },
        }
    }

    /// The text that describes an error.
    pub open spec fn spec_message(self) -> Seq<char> {
        match self {
            ConnectionError::Io { kind: _, text } => "IO error: "@ + text@,
            ConnectionError::Timeout => "Connection timeout"@,
            ConnectionError::Refused => "Connection refused"@,
            ConnectionError::Reset => "Connection reset"@,
            ConnectionError::Other(s) => s@,
        }
    }

    /// The text that describes the error.
    pub fn message(&self) -> (t: String)
        ensures
            t@ == self.spec_message(),
    {
        match self {
            ConnectionError::Io { kind: _, text } => "IO error: ".to_string().concat(text.as_str()),
            ConnectionError::Timeout => "Connection timeout".to_string(),
            ConnectionError::Refused => "Connection refused".to_string(),
            ConnectionError::Reset => "Connection reset".to_string(),
            ConnectionError::Other(s) => s.clone(),
        }
    }
}

impl RetryableError for ConnectionError {
    open spec fn retryable(&self) -> bool {
        match self {
            ConnectionError::Io { kind, text: _ } => *kind != IoErrorKind::Other,
            ConnectionError::Other(_) => false,
            _ => true,
        }
    }

    fn is_retryable(&self) -> (b: bool) {
        match self {
            ConnectionError::Timeout => true,
            ConnectionError::Refused => true,
            ConnectionError::Reset => true,
            ConnectionError::Io { kind, text: _ } => match kind {
                IoErrorKind::Other => false,
                _ => true,
            },
            ConnectionError::Other(_) => false,
        }
    }
}

/// What came of an operation that was tried until it succeeded.
#[derive(Debug)]
pub struct RetryResult<T> {
    pub value: T,
    pub attempts: u32,
    pub total_delay_ms: u64,
}

/// What follows a failure.
#[derive(Debug, PartialEq, Eq, Structural)]
pub enum RetryStep {
    /// Try again after this many milliseconds.
    Wait { ms: u64 },
    /// That was the last attempt: the error is the result.
    GiveUp,
}

/// How often an operation was tried.
pub struct RetryState {
    max_retries: u32,
    attempt: u32,
    total_delay_ms: u64,
}

impl RetryState {
    pub closed spec fn max(self) -> int {
        self.max_retries as int
    }

    /// The attempts that failed.
    pub closed spec fn failures(self) -> int {
        self.attempt as int
    }

    /// The time that was waited, in milliseconds.
    pub closed spec fn waited(self) -> int {
        self.total_delay_ms as int
    }

    pub open spec fn wf(self) -> bool {
        &&& 0 <= self.failures() <= self.max() < u32::MAX
        &&& 0 <= self.waited() <= u64::MAX
    }

    /// Nothing was tried yet. An operation is tried once, and `max_retries` times
    /// again.
    pub fn new(max_retries: u32) -> (s: Self)
        requires
            max_retries < u32::MAX,
        ensures
            s.wf(),
            s.max() == max_retries,
            s.failures() == 0,
            s.waited() == 0,
    {
        RetryState { max_retries, attempt: 0, total_delay_ms: 0 }
    }

    /// Which retry comes after the next failure, counted from one.
    pub fn next_retry(&self) -> (n: u32)
        requires
            self.wf(),
        ensures
            n == self.failures() + 1,
    {
        self.attempt + 1
    }

    /// An attempt failed. `delay_ms` is the pause before the next one.
    pub fn failed(&mut self, delay_ms: u64) -> (step: RetryStep)
        requires
            old(self).wf(),
            old(self).waited() + delay_ms <= u64::MAX,
        ensures
            final(self).wf(),
            final(self).max() == old(self).max(),
            if old(self).failures() < old(self).max() {
                &&& step == (RetryStep::Wait { ms: delay_ms })
                &&& final(self).failures() == old(self).failures() + 1
                &&& final(self).waited() == old(self).waited() + delay_ms
            } else {
                step == RetryStep::GiveUp && *final(self) == *old(self)
            },
    {
        if self.attempt < self.max_retries {
            self.attempt = self.attempt + 1;
            self.total_delay_ms = self.total_delay_ms + delay_ms;
            RetryStep::Wait { ms: delay_ms }
        } else {
            RetryStep::GiveUp
        }
    }

    /// An attempt succeeded.
    pub fn succeeded<T>(&self, value: T) -> (r: RetryResult<T>)
        requires
            self.wf(),
        ensures
            r.value == value,
            r.attempts == self.failures() + 1,
            r.total_delay_ms == self.waited(),
    {
        RetryResult { value, attempts: self.attempt + 1, total_delay_ms: self.total_delay_ms }
    }
}

/// When an operation is tried again. By which factor pauses grow is not fixed here.
#[derive(Debug, Clone, Copy)]
pub struct RetryConfig {
    pub max_retries: u32,
    pub initial_delay_ms: u64,
    pub max_delay_ms: u64,
    /// Whether pauses grow by a factor each time, or else by the first pause.
    pub use_exponential_backoff: bool,
}

impl Default for RetryConfig {
    fn default() -> (c: Self)
        ensures
            c == (RetryConfig {
                max_retries: 3,
                initial_delay_ms: 100,
                max_delay_ms: 30_000,
                use_exponential_backoff: true,
            }),
    {
        RetryConfig {
            max_retries: 3,
            initial_delay_ms: 100,
            max_delay_ms: 30_000,
            use_exponential_backoff: true,
        }
    }
}

impl RetryConfig {
    /// Short pauses.
    pub fn fast() -> (c: Self)
        ensures
            c == (RetryConfig {
                max_retries: 3,
                initial_delay_ms: 50,
                max_delay_ms: 5_000,
                use_exponential_backoff: true,
            }),
    {
        RetryConfig {
            max_retries: 3,
            initial_delay_ms: 50,
            max_delay_ms: 5_000,
            use_exponential_backoff: true,
        }
    }

    /// Long pauses.
    pub fn slow() -> (c: Self)
        ensures
            c == (RetryConfig {
                max_retries: 5,
                initial_delay_ms: 1_000,
                max_delay_ms: 60_000,
                use_exponential_backoff: true,
            }),
    {
        RetryConfig {
            max_retries: 5,
            initial_delay_ms: 1_000,
            max_delay_ms: 60_000,
            use_exponential_backoff: true,
        }
    }

    /// The pause before retry `attempt`, in milliseconds.
    pub open spec fn delay(self, attempt: u32, exponential_ms: u64) -> int {
        let wanted = if self.use_exponential_backoff {
            exponential_ms as int
        } else {
            self.initial_delay_ms * attempt
        };
        if attempt == 0 {
            0
        } else {
            least(wanted, self.max_delay_ms as int)
        }
    }

    /// The pause before retry `attempt`, in milliseconds. `exponential_ms` is the first
    /// pause after it grew `attempt - 1` times.
    pub fn calculate_delay(&self, attempt: u32, exponential_ms: u64) -> (ms: u64)
        ensures
            ms == self.delay(attempt, exponential_ms),
    {
        if attempt == 0 {
            return 0;
        }
        if self.use_exponential_backoff {
            return if exponential_ms <= self.max_delay_ms {
                exponential_ms
            } else {
                self.max_delay_ms
            };
        }
        let a: u64 = self.initial_delay_ms;
        let b: u32 = attempt;
        assert(a * b <= u64::MAX * u32::MAX) by (nonlinear_arith)
            requires
                0 <= a <= u64::MAX,
                0 <= b <= u32::MAX,
        ;
        let wanted: u128 = a as u128 * b as u128;
        if wanted <= self.max_delay_ms as u128 {
            wanted as u64
        } else {
            self.max_delay_ms
        }
    }
}

/// No pause is longer than the settings allow, and there is none before the first
/// attempt.
pub proof fn law_pauses_are_capped(c: RetryConfig, attempt: u32, exponential_ms: u64)
    ensures
        c.delay(attempt, exponential_ms) <= c.max_delay_ms,
        c.delay(0, exponential_ms) == 0,
{
}

} // verus!
