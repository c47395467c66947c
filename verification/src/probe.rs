//! The readiness probe: where it is sent, how its answers are read, and the
//! fixed pace and budget of the poll.

use crate::text::{followed_by, decimal, render_decimal};
use vstd::prelude::*;
use vstd::string::*;

verus! {

/// Time between two probes, in milliseconds.
pub const POLL_INTERVAL_MS: u64 = 500;

/// Number of probes after which the launch is given up.
pub const MAX_ATTEMPTS: u32 = 120;

/// The longest a launch waits for the backend: the interval times the
/// budget, in milliseconds.
pub const STARTUP_TIMEOUT_MS: u64 = POLL_INTERVAL_MS * (MAX_ATTEMPTS as u64);

/// Failed probes are logged once in this many.
pub const LOG_EVERY: u32 = 10;

/// The address under which a backend on `port` serves the shell.
pub open spec fn base_url_of(port: u16) -> Seq<char> {
    "http://localhost:"@ + decimal(port as nat)
}

/// The address of the health endpoint of a backend on `port`.
pub open spec fn health_url_of(port: u16) -> Seq<char> {
    base_url_of(port) + "/healthcheck"@
}

/// Whether an HTTP status code reports success: the codes 200 to 299.
pub open spec fn is_success(code: u16) -> bool {
    200 <= code < 300
}

/// Whether the failure of a probe is written to the log, given how many
/// probes failed before it: the first failure and every tenth after it.
pub open spec fn logs_failure(failed_before: nat) -> bool {
    failed_before % (LOG_EVERY as nat) == 0
}

/// What one probe of the health endpoint brought back.
#[derive(Clone, Copy, Debug, PartialEq, Eq, Structural)]
pub enum ProbeOutcome {
    /// The backend answered with this HTTP status code.
    Status(u16),
    /// No answer: the connection failed or timed out.
    Unreachable,
}

impl ProbeOutcome {
    /// A probe succeeds when the backend answers with a success status.
    /// Every other answer, and no answer, is a failed attempt.
    pub open spec fn succeeded(self) -> bool {
        self matches ProbeOutcome::Status(code) && is_success(code)
    }

    /// Decides whether the probe found the backend ready.
    pub fn is_ready(&self) -> (r: bool)
        ensures
            r == self.succeeded(),
    {
        match self {
            ProbeOutcome::Status(code) => is_success_status(*code),
            ProbeOutcome::Unreachable => false,
        }
    }
}

/// Decides whether an HTTP status code reports success.
pub fn is_success_status(code: u16) -> (r: bool)
    ensures
        r == is_success(code),
{
    200 <= code && code < 300
}

/// Decides whether a failed probe is logged, given the number of probes
/// that failed before it.
pub fn should_log_failure(failed_before: u32) -> (r: bool)
    ensures
        r == logs_failure(failed_before as nat),
{
    failed_before % LOG_EVERY == 0
}

/// Builds the address under which a backend on `port` serves the shell.
pub fn base_url(port: u16) -> (r: String)
    ensures
        r@ == base_url_of(port),
{
    let digits = render_decimal(port as u64);
    followed_by("http://localhost:", digits.as_str())
}

/// Builds the address of the health endpoint of a backend on `port`.
pub fn health_check_url(port: u16) -> (r: String)
    ensures
        r@ == health_url_of(port),
{
    let mut url = base_url(port);
    url.append("/healthcheck");
    url
}

/// The timeout is the product of interval and budget: sixty seconds.
pub proof fn lemma_timeout_is_product()
    ensures
        STARTUP_TIMEOUT_MS == POLL_INTERVAL_MS * MAX_ATTEMPTS,
        STARTUP_TIMEOUT_MS == 60_000,
{
}

} // verus!
