//! Decisions of the TCP readiness poll and the LAN address fallback.
//!
//! The launcher polls `127.0.0.1:port` until a connection succeeds or a
//! fixed deadline passes.  The socket work — each bounded connection
//! attempt, the sleep between attempts, reading the clock — happens in the
//! surrounding binary; this module decides, from the observed clock value
//! and the outcome of the last attempt, whether the poll is finished and
//! with what result.  Time is measured in milliseconds from an arbitrary
//! epoch.

use vstd::prelude::*;

verus! {

/// How long one connection attempt may take.
pub const CONNECT_ATTEMPT_TIMEOUT_MS: u64 = 250;

/// The pause between two connection attempts, to avoid busy-polling.
pub const RETRY_SLEEP_MS: u64 = 200;

/// The overall readiness timeout.
pub const READINESS_TIMEOUT_MS: u64 = 10000;

/// What one poll cycle decides.
#[derive(Clone, Copy, PartialEq, Eq, Structural, Debug)]
pub enum PollDecision {
    /// A connection attempt succeeded before the deadline: the server is
    /// ready.
    Ready,
    /// The deadline has passed without a successful attempt.
    TimedOut,
    /// The deadline has not passed and the last attempt failed: sleep
    /// `RETRY_SLEEP_MS` and try again.
    RetryAfterSleep,
}

/// The decision for one cycle: the deadline is checked first, so a late
/// success still counts as a timeout, exactly as a poll loop that stops
/// attempting at the deadline behaves.
pub open spec fn spec_poll_decision(now_ms: u64, deadline_ms: u64, connected: bool) -> PollDecision {
    if now_ms >= deadline_ms {
        PollDecision::TimedOut
    } else if connected {
        PollDecision::Ready
    } else {
        PollDecision::RetryAfterSleep
    }
}

/// Decides one poll cycle from the clock and the last attempt's outcome.
pub fn poll_decision(now_ms: u64, deadline_ms: u64, connected: bool) -> (d: PollDecision)
    ensures
        d == spec_poll_decision(now_ms, deadline_ms, connected),
{
    if now_ms >= deadline_ms {
        PollDecision::TimedOut
    } else if connected {
        PollDecision::Ready
    } else {
        PollDecision::RetryAfterSleep
    }
}

/// The instant the poll must stop at: its start plus the timeout.
pub fn readiness_deadline(start_ms: u64, timeout_ms: u64) -> (d: u64)
    requires
        start_ms + timeout_ms <= u64::MAX,
    ensures
        d == start_ms + timeout_ms,
{
    start_ms + timeout_ms
}

/// The outcome of a whole poll, given the cycles' observations in order:
/// each observation pairs a clock reading with whether the attempt made on
/// that cycle (if any) connected.  `None` means the observations ran out
/// with the poll still going.
pub open spec fn spec_poll_outcome(obs: Seq<(u64, bool)>, deadline_ms: u64) -> Option<bool>
    decreases obs.len(),
{
    if obs.len() == 0 {
        None
    } else {
        match spec_poll_decision(obs[0].0, deadline_ms, obs[0].1) {
            PollDecision::Ready => Some(true),
            PollDecision::TimedOut => Some(false),
            PollDecision::RetryAfterSleep => spec_poll_outcome(obs.drop_first(), deadline_ms),
        }
    }
}

/// Law: the poll reports readiness only if some cycle saw a successful
/// connection before the deadline — a server that never listens is never
/// reported ready.
pub proof fn lemma_ready_needs_connection(obs: Seq<(u64, bool)>, deadline_ms: u64)
    requires
        spec_poll_outcome(obs, deadline_ms) == Some(true),
    ensures
        exists|i: int| 0 <= i < obs.len() && obs[i].1 && obs[i].0 < deadline_ms,
    decreases obs.len(),
{
    if spec_poll_decision(obs[0].0, deadline_ms, obs[0].1) is RetryAfterSleep {
        lemma_ready_needs_connection(obs.drop_first(), deadline_ms);
        let j = choose|j: int|
            0 <= j < obs.drop_first().len() && obs.drop_first()[j].1 && obs.drop_first()[j].0
                < deadline_ms;
        assert(obs[j + 1].1 && obs[j + 1].0 < deadline_ms);
    } else {
        assert(obs[0].1 && obs[0].0 < deadline_ms);
    }
}

/// Law: the poll reports a timeout only once a cycle observed the clock at
/// or past the deadline — never early, and a cycle that connects in time is
/// reported as ready on that very cycle, so a listener that opens during
/// polling is found.
pub proof fn lemma_timeout_needs_deadline(obs: Seq<(u64, bool)>, deadline_ms: u64)
    requires
        spec_poll_outcome(obs, deadline_ms) == Some(false),
    ensures
        exists|i: int| 0 <= i < obs.len() && obs[i].0 >= deadline_ms,
        forall|i: int| 0 <= i < obs.len() && obs[i].1 && obs[i].0 < deadline_ms ==> exists|j: int|
            0 <= j < i && obs[j].0 >= deadline_ms,
    decreases obs.len(),
{
    if spec_poll_decision(obs[0].0, deadline_ms, obs[0].1) is RetryAfterSleep {
        lemma_timeout_needs_deadline(obs.drop_first(), deadline_ms);
        let t = obs.drop_first();
        let j = choose|j: int| 0 <= j < t.len() && t[j].0 >= deadline_ms;
        assert(obs[j + 1].0 >= deadline_ms);
        assert forall|i: int|
            0 <= i < obs.len() && obs[i].1 && obs[i].0 < deadline_ms implies exists|j2: int|
            0 <= j2 < i && obs[j2].0 >= deadline_ms by {
            assert(i >= 1);
            assert(t[i - 1].1 && t[i - 1].0 < deadline_ms);
            let j3 = choose|j3: int| 0 <= j3 < i - 1 && t[j3].0 >= deadline_ms;
            assert(obs[j3 + 1].0 >= deadline_ms && 0 <= j3 + 1 < i);
        }
    }
}

/// The LAN address the launcher shows: the detected outbound-routable
/// address when detection succeeded, the loopback address otherwise.
pub fn lan_ip_or_loopback(probe: Option<String>) -> (r: String)
    ensures
        (match probe {
            Some(ip) => r@ == ip@,
            None => r@ == "127.0.0.1"@,
        }),
{
    match probe {
        Some(ip) => ip,
        None => String::from_str("127.0.0.1"),
    }
}

} // verus!
