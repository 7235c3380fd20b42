//! Readiness probing: the decisions of the loop that polls the backend's
//! health endpoint until it answers or the deadline passes. The host sends
//! the requests, sleeps and reads the clock.

use vstd::prelude::*;
use crate::text::{decimal, push_decimal};

verus! {

/// Pause between two health requests, in milliseconds.
pub const POLL_INTERVAL_MS: u64 = 200;

/// Time that a packaged backend is given to become reachable, in seconds.
pub const READINESS_TIMEOUT_SECS: u64 = 60;

/// What one health request came to.
#[derive(Clone, Copy, Debug, PartialEq, Eq, Structural)]
pub enum PollResult {
    /// No response: nothing listens yet, the connection was refused or broke.
    Unreachable,
    /// A response with this HTTP status code.
    Status(u16),
}

impl PollResult {
    /// The backend is ready when it answers with a status from 200 to 299.
    /// Everything else, a failed connection included, means "not yet".
    pub open spec fn is_success(self) -> bool {
        match self {
            PollResult::Unreachable => false,
            PollResult::Status(code) => 200 <= code < 300,
        }
    }

    pub fn succeeded(&self) -> (ok: bool)
        ensures
            ok == self.is_success(),
    {
        match self {
            PollResult::Unreachable => false,
            PollResult::Status(code) => *code >= 200 && *code < 300,
        }
    }
}

/// The address of the health endpoint on the loopback interface.
pub open spec fn health_url_text(port: u16) -> Seq<char> {
    "http://127.0.0.1:"@ + decimal(port as nat) + "/health"@
}

pub fn health_url(port: u16) -> (url: String)
    ensures
        url@ == health_url_text(port),
{
    let mut url = String::from_str("http://127.0.0.1:");
    push_decimal(&mut url, port as u64);
    url.append("/health");
    url
}

/// The deadline has passed once the time elapsed since the probe began is
/// no less than the timeout.
pub open spec fn deadline_passed(elapsed_ms: u64, timeout_secs: u64) -> bool {
    elapsed_ms >= timeout_secs * 1000
}

pub fn has_deadline_passed(elapsed_ms: u64, timeout_secs: u64) -> (passed: bool)
    ensures
        passed == deadline_passed(elapsed_ms, timeout_secs),
{
    elapsed_ms / 1000 >= timeout_secs
}

/// The next move of the probe.
#[derive(Clone, Copy, Debug, PartialEq, Eq, Structural)]
pub enum ProbeStep {
    /// Send a GET request to the health endpoint and report the result.
    Poll,
    /// Pause for this many milliseconds, then report the time elapsed.
    Sleep { millis: u64 },
    /// The backend answered: it is ready.
    Ready,
    /// The deadline passed with no successful answer.
    TimedOut,
}

/// The decision at the top of each round, on the time elapsed since the
/// probe began: give up at the deadline, poll before it.
pub open spec fn step_at(elapsed_ms: u64, timeout_secs: u64) -> ProbeStep {
    if deadline_passed(elapsed_ms, timeout_secs) {
        ProbeStep::TimedOut
    } else {
        ProbeStep::Poll
    }
}

/// The decision on the result of a request: ready on success, else a pause
/// of the polling interval.
pub open spec fn step_after(result: PollResult, interval_ms: u64) -> ProbeStep {
    if result.is_success() {
        ProbeStep::Ready
    } else {
        ProbeStep::Sleep { millis: interval_ms }
    }
}

pub fn probe_at(elapsed_ms: u64, timeout_secs: u64) -> (step: ProbeStep)
    ensures
        step == step_at(elapsed_ms, timeout_secs),
{
    if has_deadline_passed(elapsed_ms, timeout_secs) {
        ProbeStep::TimedOut
    } else {
        ProbeStep::Poll
    }
}

pub fn probe_after(result: PollResult, interval_ms: u64) -> (step: ProbeStep)
    ensures
        step == step_after(result, interval_ms),
{
    if result.succeeded() {
        ProbeStep::Ready
    } else {
        ProbeStep::Sleep { millis: interval_ms }
    }
}

} // verus!
