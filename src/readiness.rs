use vstd::prelude::*;
use vstd::string::StringExecFns;
use crate::text::{decimal, decimal_of, seconds_of, seconds_text};

verus! {

/// The default longest wait for readiness, in milliseconds.
pub const MAX_WAIT_MS: u32 = 20000;

/// The default pause between two probes, in milliseconds.
pub const POLL_INTERVAL_MS: u32 = 200;

/// Roughly how often progress is reported while waiting, in milliseconds.
pub const PROGRESS_PERIOD_MS: u32 = 1000;

/// What the host is to do after a probe.
#[derive(Debug, PartialEq, Eq)]
pub enum WaitStep {
    /// The server answered with this body; stop polling.
    Ready(String),
    /// Sleep `sleep_ms`, then probe again. Where `progress_ms` is given, first
    /// report that this many milliseconds have been spent waiting.
    Retry { sleep_ms: u32, progress_ms: Option<u64> },
    /// The budget of polls is spent without an answer. Where `progress_ms` is
    /// given, first report that this many milliseconds were spent waiting.
    TimedOut { progress_ms: Option<u64> },
}

/// The abstract state of a waiter.
pub struct WaitModel {
    pub max_wait_ms: nat,
    pub interval_ms: nat,
    pub max_polls: nat,
    pub report_every: nat,
    pub polls: nat,
}

impl WaitModel {
    pub open spec fn wf(self) -> bool {
        &&& self.interval_ms > 0
        &&& self.max_polls == self.max_wait_ms / self.interval_ms
        &&& self.report_every > 0
        &&& self.polls <= self.max_polls
    }

    /// A waiter configured so, before its first probe.
    pub open spec fn fresh(max_wait_ms: nat, interval_ms: nat) -> WaitModel {
        WaitModel {
            max_wait_ms,
            interval_ms,
            max_polls: max_wait_ms / interval_ms,
            report_every: if interval_ms >= PROGRESS_PERIOD_MS {
                1
            } else {
                PROGRESS_PERIOD_MS as nat / interval_ms
            },
            polls: 0,
        }
    }

    /// The progress report due after a failed probe, if any.
    pub open spec fn progress(self) -> Option<u64> {
        if self.polls > 0 && self.polls % self.report_every == 0 {
            Some((self.polls * self.interval_ms) as u64)
        } else {
            None
        }
    }
}

/// One probe's effect. `answer` is the body of a successful response, or
/// nothing when the probe failed in any way.
pub open spec fn probe_spec(w: WaitModel, answer: Option<String>) -> (WaitModel, WaitStep) {
    match answer {
        Some(body) => (w, WaitStep::Ready(body)),
        None => if w.polls < w.max_polls {
            (
                WaitModel { polls: w.polls + 1, ..w },
                WaitStep::Retry { sleep_ms: w.interval_ms as u32, progress_ms: w.progress() },
            )
        } else {
            (w, WaitStep::TimedOut { progress_ms: w.progress() })
        },
    }
}

/// The state after `k` failed probes in a row.
pub open spec fn after_failures(w: WaitModel, k: nat) -> WaitModel
    decreases k,
{
    if k == 0 {
        w
    } else {
        probe_spec(after_failures(w, (k - 1) as nat), None).0
    }
}

/// Whether `step` asks for a sleep of `ms` milliseconds before the next probe.
pub open spec fn sleeps_for(step: WaitStep, ms: nat) -> bool {
    step matches WaitStep::Retry { sleep_ms, .. } && sleep_ms == ms as u32
}

/// The progress report a step asks for, if any.
pub open spec fn progress_of(step: WaitStep) -> Option<u64> {
    match step {
        WaitStep::Retry { progress_ms, .. } => progress_ms,
        WaitStep::TimedOut { progress_ms } => progress_ms,
        WaitStep::Ready(_) => None,
    }
}

proof fn lemma_after_failures(w: WaitModel, k: nat)
    requires
        w.polls == 0,
        k <= w.max_polls,
    ensures
        after_failures(w, k) == (WaitModel { polls: k, ..w }),
    decreases k,
{
    if k > 0 {
        lemma_after_failures(w, (k - 1) as nat);
    }
}

/// A waiter whose first probe is answered reports readiness with that body at
/// once: no sleep is asked for and no poll is spent.
pub proof fn lemma_ready_without_sleep(max_wait_ms: nat, interval_ms: nat, body: String)
    requires
        interval_ms > 0,
    ensures
        probe_spec(WaitModel::fresh(max_wait_ms, interval_ms), Some(body)) == (
        WaitModel::fresh(max_wait_ms, interval_ms), WaitStep::Ready(body)),
{
}

/// Against an endpoint that never answers, a fresh waiter asks for exactly
/// `max_polls` sleeps of one interval each and then times out. The time slept
/// is at most the longest wait, and less than one interval short of it. The
/// failed probe after the `k`-th sleep, the last one included, reports
/// `k` intervals of waiting exactly when `k` is a positive multiple of
/// `report_every`.
pub proof fn lemma_times_out_after_budget(max_wait_ms: nat, interval_ms: nat)
    requires
        interval_ms > 0,
    ensures
        ({
            let w = WaitModel::fresh(max_wait_ms, interval_ms);
            &&& forall|k: nat|
                k < w.max_polls ==> sleeps_for(
                    #[trigger] probe_spec(after_failures(w, k), None).1,
                    interval_ms,
                )
            &&& probe_spec(after_failures(w, w.max_polls), None).1 is TimedOut
            &&& w.max_polls * interval_ms <= max_wait_ms
            &&& max_wait_ms < (w.max_polls + 1) * interval_ms
            &&& forall|k: nat|
                k <= w.max_polls ==> #[trigger] progress_of(
                    probe_spec(after_failures(w, k), None).1,
                ) == if k > 0 && k % w.report_every == 0 {
                    Some((k * interval_ms) as u64)
                } else {
                    None
                }
        }),
{
    let w = WaitModel::fresh(max_wait_ms, interval_ms);
    assert forall|k: nat| k < w.max_polls implies sleeps_for(
        #[trigger] probe_spec(after_failures(w, k), None).1,
        interval_ms,
    ) by {
        lemma_after_failures(w, k);
    }
    lemma_after_failures(w, w.max_polls);
    assert forall|k: nat| k <= w.max_polls implies #[trigger] progress_of(
        probe_spec(after_failures(w, k), None).1,
    ) == if k > 0 && k % w.report_every == 0 {
        Some((k * interval_ms) as u64)
    } else {
        None
    } by {
        lemma_after_failures(w, k);
    }
    let q = max_wait_ms / interval_ms;
    assert(q * interval_ms <= max_wait_ms && max_wait_ms < (q + 1) * interval_ms)
        by (nonlinear_arith)
        requires
            interval_ms > 0,
            q == max_wait_ms / interval_ms,
    {
        assert(max_wait_ms == q * interval_ms + max_wait_ms % interval_ms);
    }
}

/// Polls the health endpoint at a fixed interval until it answers or a budget
/// of polls derived from the longest wait is spent. The first probe is made at
/// once, each later one after a sleep.
pub struct ReadinessWaiter {
    max_wait_ms: u32,
    interval_ms: u32,
    max_polls: u32,
    report_every: u32,
    polls: u32,
}

impl View for ReadinessWaiter {
    type V = WaitModel;

    closed spec fn view(&self) -> WaitModel {
        WaitModel {
            max_wait_ms: self.max_wait_ms as nat,
            interval_ms: self.interval_ms as nat,
            max_polls: self.max_polls as nat,
            report_every: self.report_every as nat,
            polls: self.polls as nat,
        }
    }
}

impl ReadinessWaiter {
    /// A waiter that gives up after about `max_wait_ms`, probing every
    /// `interval_ms`.
    pub fn new(max_wait_ms: u32, interval_ms: u32) -> (r: Self)
        requires
            interval_ms > 0,
        ensures
            r@ == WaitModel::fresh(max_wait_ms as nat, interval_ms as nat),
            r@.wf(),
    {
        let report_every: u32 = if interval_ms >= PROGRESS_PERIOD_MS {
            1
        } else {
            assert(1000int / (interval_ms as int) >= 1) by (nonlinear_arith)
                requires
                    0 < interval_ms < 1000,
            {}
            PROGRESS_PERIOD_MS / interval_ms
        };
        ReadinessWaiter {
            max_wait_ms,
            interval_ms,
            max_polls: max_wait_ms / interval_ms,
            report_every,
            polls: 0,
        }
    }

    /// A waiter with the default limits: twenty seconds, a probe every 200 ms.
    pub fn standard() -> (r: Self)
        ensures
            r@ == WaitModel::fresh(MAX_WAIT_MS as nat, POLL_INTERVAL_MS as nat),
            r@.wf(),
    {
        Self::new(MAX_WAIT_MS, POLL_INTERVAL_MS)
    }

    /// How many sleeps have been taken so far.
    pub fn polls(&self) -> (r: u32)
        ensures
            r == self@.polls,
    {
        self.polls
    }

    /// The most sleeps this waiter takes before it gives up.
    pub fn max_polls(&self) -> (r: u32)
        ensures
            r == self@.max_polls,
    {
        self.max_polls
    }

    /// Takes the outcome of a probe and says what to do next.
    pub fn on_probe(&mut self, answer: Option<String>) -> (r: WaitStep)
        requires
            old(self)@.wf(),
        ensures
            (final(self)@, r) == probe_spec(old(self)@, answer),
            final(self)@.wf(),
    {
        match answer {
            Some(body) => WaitStep::Ready(body),
            None => {
                let progress_ms = if self.polls > 0 && self.polls % self.report_every == 0 {
                    assert(self.polls as nat * self.interval_ms as nat <= self.max_wait_ms as nat)
                        by (nonlinear_arith)
                        requires
                            self.polls <= self.max_wait_ms / self.interval_ms,
                            self.interval_ms > 0,
                    {
                        assert(self.max_wait_ms / self.interval_ms * self.interval_ms <= self.max_wait_ms);
                        assert(self.polls as nat * self.interval_ms as nat <= (self.max_wait_ms / self.interval_ms) as nat * self.interval_ms as nat);
                    }
                    Some(self.polls as u64 * self.interval_ms as u64)
                } else {
                    None
                };
                if self.polls < self.max_polls {
                    let step = WaitStep::Retry { sleep_ms: self.interval_ms, progress_ms };
                    self.polls = self.polls + 1;
                    step
                } else {
                    WaitStep::TimedOut { progress_ms }
                }
            },
        }
    }

    /// The text reported when the budget is spent without an answer.
    pub fn timeout_message(&self) -> (r: String)
        ensures
            r@ == "Server failed to start within "@ + decimal_of(self@.max_wait_ms / 1000)
                + " seconds"@,
    {
        let mut s = String::from_str("Server failed to start within ");
        let secs = decimal((self.max_wait_ms / 1000) as u64);
        s.append(secs.as_str());
        s.append(" seconds");
        s
    }
}

/// The progress line for a wait of `ms` milliseconds so far.
pub fn progress_message(ms: u64) -> (r: String)
    ensures
        r@ == "Waiting for server... "@ + seconds_of(ms as nat) + "s"@,
{
    let mut s = String::from_str("Waiting for server... ");
    let secs = seconds_text(ms);
    s.append(secs.as_str());
    s.append("s");
    s
}

/// The line reporting readiness after `ms` milliseconds of waiting.
pub fn ready_message(ms: u64) -> (r: String)
    ensures
        r@ == "Server ready after "@ + seconds_of(ms as nat) + " seconds"@,
{
    let mut s = String::from_str("Server ready after ");
    let secs = seconds_text(ms);
    s.append(secs.as_str());
    s.append(" seconds");
    s
}

} // verus!
