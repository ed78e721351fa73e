use vstd::prelude::*;
use vstd::string::StringExecFns;
use crate::text::{decimal, decimal_string};

verus! {

/// The fixed pause between two probes of a port that was not open.
pub const POLL_INTERVAL_MS: u64 = 100;

/// What the loop that waits for a port does next.
pub enum WaitAction {
    /// Probe the port now.
    Probe,
    /// The port was not open: pause this many milliseconds, then read the clock.
    Sleep(u64),
    /// The port accepts connections: the wait succeeded.
    Ready,
    /// The deadline has passed without the port opening.
    TimedOut,
}

/// The decision taken on reading the clock: probe while the elapsed time is
/// under the timeout, give up otherwise.
pub open spec fn clock_action(timeout_secs: u64, elapsed_ms: nat) -> WaitAction {
    if elapsed_ms < timeout_secs * 1000 {
        WaitAction::Probe
    } else {
        WaitAction::TimedOut
    }
}

/// The decision taken on a probe: done if open, else pause one interval.
pub open spec fn probe_action(open: bool) -> WaitAction {
    if open {
        WaitAction::Ready
    } else {
        WaitAction::Sleep(POLL_INTERVAL_MS)
    }
}

/// A bounded wait for `host:port` to accept connections, polled from the
/// caller's loop: read the clock, ask `on_clock`; probe, ask `on_probe`.
pub struct ReadinessWaiter {
    pub host: String,
    pub port: u16,
    pub timeout_secs: u64,
}

/// The failure of a wait: the deadline passed with the port still closed.
pub struct WaitTimeout {
    pub host: String,
    pub port: u16,
    pub elapsed_ms: u64,
}

/// `host:port`, the port in decimal.
pub open spec fn address_text(host: Seq<char>, port: u16) -> Seq<char> {
    host + ":"@ + decimal(port as nat)
}

pub open spec fn timeout_text(host: Seq<char>, port: u16) -> Seq<char> {
    "Timed out waiting for "@ + address_text(host, port) + " to be available"@
}

/// The address to probe: `host:port`.
pub fn address_string(host: &str, port: u16) -> (r: String)
    ensures
        r@ == address_text(host@, port),
{
    let mut s = String::from_str(host);
    s.append(":");
    let digits = decimal_string(port as u64);
    s.append(digits.as_str());
    s
}

impl ReadinessWaiter {
    pub fn new(host: String, port: u16, timeout_secs: u64) -> (r: ReadinessWaiter)
        ensures
            r.host@ == host@,
            r.port == port,
            r.timeout_secs == timeout_secs,
    {
        ReadinessWaiter { host, port, timeout_secs }
    }

    /// The address that each probe connects to.
    pub fn address(&self) -> (r: String)
        ensures
            r@ == address_text(self.host@, self.port),
    {
        address_string(self.host.as_str(), self.port)
    }

    /// The decision on reading `elapsed_ms` since the wait started.
    pub fn on_clock(&self, elapsed_ms: u64) -> (r: WaitAction)
        ensures
            r == clock_action(self.timeout_secs, elapsed_ms as nat),
    {
        let secs = elapsed_ms / 1000;
        assert(elapsed_ms < self.timeout_secs * 1000 <==> secs < self.timeout_secs) by (nonlinear_arith)
            requires
                secs == elapsed_ms / 1000,
        ;
        if secs < self.timeout_secs {
            WaitAction::Probe
        } else {
            WaitAction::TimedOut
        }
    }

    /// The decision on a probe that found the port `open` or not.
    pub fn on_probe(&self, open: bool) -> (r: WaitAction)
        ensures
            r == probe_action(open),
    {
        if open {
            WaitAction::Ready
        } else {
            WaitAction::Sleep(POLL_INTERVAL_MS)
        }
    }

    /// The failure to report when `on_clock` has given up after `elapsed_ms`.
    pub fn timeout_error(&self, elapsed_ms: u64) -> (r: WaitTimeout)
        ensures
            r.host@ == self.host@,
            r.port == self.port,
            r.elapsed_ms == elapsed_ms,
    {
        WaitTimeout { host: self.host.clone(), port: self.port, elapsed_ms }
    }
}

impl WaitTimeout {
    /// "Timed out waiting for HOST:PORT to be available".
    pub fn message(&self) -> (r: String)
        ensures
            r@ == timeout_text(self.host@, self.port),
    {
        let mut s = String::from_str("Timed out waiting for ");
        let address = address_string(self.host.as_str(), self.port);
        s.append(address.as_str());
        s.append(" to be available");
        s
    }
}

/// Whether, in the model of a port that opens at `opens_at` (if ever) and
/// then stays open, the port is open at time `now`.
pub open spec fn port_open(opens_at: Option<nat>, now: nat) -> bool {
    match opens_at {
        Some(t) => t <= now,
        None => false,
    }
}

/// The outcome of a wait, and the time in milliseconds at which it ends, when
/// the clock is read at `now` and probes take no time and each pause lasts
/// exactly as asked: the decisions of `on_clock` and `on_probe` in a loop.
pub open spec fn ideal_wait(timeout_secs: u64, opens_at: Option<nat>, now: nat) -> (WaitAction, nat)
    decreases timeout_secs * 1000 + POLL_INTERVAL_MS - now,
{
    if clock_action(timeout_secs, now) is TimedOut {
        (WaitAction::TimedOut, now)
    } else if probe_action(port_open(opens_at, now)) is Ready {
        (WaitAction::Ready, now)
    } else {
        ideal_wait(timeout_secs, opens_at, (now + POLL_INTERVAL_MS) as nat)
    }
}

/// The first time at which the wait probes, at or after `t`.
pub open spec fn first_poll_at_or_after(t: nat) -> nat {
    ((t + POLL_INTERVAL_MS - 1) / POLL_INTERVAL_MS as int * POLL_INTERVAL_MS) as nat
}

proof fn lemma_never_open_from(timeout_secs: u64, now: nat)
    requires
        now < timeout_secs * 1000 + POLL_INTERVAL_MS,
    ensures
        ideal_wait(timeout_secs, None, now).0 is TimedOut,
        timeout_secs * 1000 <= ideal_wait(timeout_secs, None, now).1,
        ideal_wait(timeout_secs, None, now).1 < timeout_secs * 1000 + POLL_INTERVAL_MS,
    decreases timeout_secs * 1000 + POLL_INTERVAL_MS - now,
{
    if now < timeout_secs * 1000 {
        lemma_never_open_from(timeout_secs, (now + POLL_INTERVAL_MS) as nat);
    }
}

/// A wait on a port that never opens gives up no earlier than the timeout,
/// and before one more poll interval has passed.
pub proof fn lemma_timeout_boundary(timeout_secs: u64)
    ensures
        ideal_wait(timeout_secs, None, 0).0 is TimedOut,
        timeout_secs * 1000 <= ideal_wait(timeout_secs, None, 0).1,
        ideal_wait(timeout_secs, None, 0).1 < timeout_secs * 1000 + POLL_INTERVAL_MS,
{
    lemma_never_open_from(timeout_secs, 0);
}

proof fn lemma_opens_from(timeout_secs: u64, opens_at: nat, now: nat)
    requires
        now % 100 == 0,
        now <= first_poll_at_or_after(opens_at),
        first_poll_at_or_after(opens_at) < timeout_secs * 1000,
    ensures
        ideal_wait(timeout_secs, Some(opens_at), now) == (WaitAction::Ready, first_poll_at_or_after(opens_at)),
    decreases first_poll_at_or_after(opens_at) - now,
{
    let p = first_poll_at_or_after(opens_at);
    if now < p {
        assert(now < opens_at) by (nonlinear_arith)
            requires
                now % 100 == 0,
                now < p,
                p == ((opens_at + 99) / 100) * 100,
        ;
        lemma_opens_from(timeout_secs, opens_at, (now + POLL_INTERVAL_MS) as nat);
    } else {
        assert(opens_at <= p) by (nonlinear_arith)
            requires
                p == ((opens_at + 99) / 100) * 100,
        ;
    }
}

/// A port that opens at `opens_at`, before the timeout, is found open at the
/// first probe at or after that time, which comes less than one poll interval
/// later. The law holds where that probe still falls before the deadline; the
/// excluded opening times lie within the last poll interval before it.
pub proof fn lemma_ready_latency(timeout_secs: u64, opens_at: nat)
    requires
        opens_at < timeout_secs * 1000,
        first_poll_at_or_after(opens_at) < timeout_secs * 1000,
    ensures
        ideal_wait(timeout_secs, Some(opens_at), 0).0 is Ready,
        opens_at <= ideal_wait(timeout_secs, Some(opens_at), 0).1,
        ideal_wait(timeout_secs, Some(opens_at), 0).1 < opens_at + POLL_INTERVAL_MS,
{
    let p = first_poll_at_or_after(opens_at);
    assert(opens_at <= p && p < opens_at + 100) by (nonlinear_arith)
        requires
            p == ((opens_at + 99) / 100) * 100,
    ;
    lemma_opens_from(timeout_secs, opens_at, 0);
}

} // verus!
