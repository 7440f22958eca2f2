use vstd::prelude::*;

use crate::readiness::ReadinessState;

verus! {

/// Delay before the first retry, in milliseconds.
pub const INITIAL_DELAY_MS: u64 = 200;

/// Ceiling on the retry delay, in milliseconds.
pub const MAX_DELAY_MS: u64 = 2000;

/// Budget of probing attempts before readiness is forced.
pub const MAX_ATTEMPTS: u32 = 30;

/// Bound on each individual network attempt, in milliseconds.
pub const PROBE_TIMEOUT_MS: u64 = 1000;

/// The outcome of one health probe, classified from the first endpoint that
/// answered: a success-class answer, a non-success answer, or no endpoint
/// answering at all.
#[derive(Clone, Copy, PartialEq, Eq, Structural, Debug)]
pub enum ProbeResult {
    Success,
    NotReady,
    NoResponse,
}

/// How the probing loop ended: the flag was found already set by the output
/// monitor, a probe confirmed readiness, or the attempt budget ran out and
/// readiness was forced to keep the host from blocking forever.
#[derive(Clone, Copy, PartialEq, Eq, Structural, Debug)]
pub enum ProbeOutcome {
    ReadyViaMonitor,
    ReadyViaProbe,
    TimedOutForcedReady,
}

/// What the prober asks its caller to do when an iteration begins: stop with
/// an outcome, or perform one probe.
#[derive(Clone, Copy, PartialEq, Eq, Structural, Debug)]
pub enum ProbeStep {
    Done(ProbeOutcome),
    Probe,
}

/// What the prober asks its caller to do after a probe: stop with an outcome,
/// or sleep for the given delay and try again.
#[derive(Clone, Copy, PartialEq, Eq, Structural, Debug)]
pub enum AttemptOutcome {
    Done(ProbeOutcome),
    Retry { sleep_ms: u64 },
}

/// Success-class (2xx) HTTP status.
pub open spec fn spec_is_success_status(status: u16) -> bool {
    200 <= status < 300
}

/// Whether an HTTP status code counts as a successful health answer.
pub fn is_success_status(status: u16) -> (r: bool)
    ensures
        r == spec_is_success_status(status),
{
    200 <= status && status < 300
}

/// The probe result determined by the first endpoint that answered, if any.
pub open spec fn spec_classify_probe(first_status: Option<u16>) -> ProbeResult {
    match first_status {
        Some(status) => if spec_is_success_status(status) {
            ProbeResult::Success
        } else {
            ProbeResult::NotReady
        },
        None => ProbeResult::NoResponse,
    }
}

/// Classify one probing pass: no endpoint answering is a transport failure,
/// an answer is a success exactly when its status is success-class.
pub fn classify_probe(first_status: Option<u16>) -> (r: ProbeResult)
    ensures
        r == spec_classify_probe(first_status),
{
    match first_status {
        Some(status) => if is_success_status(status) {
            ProbeResult::Success
        } else {
            ProbeResult::NotReady
        },
        None => ProbeResult::NoResponse,
    }
}

/// The health-check endpoints, in the order they are tried on each attempt.
pub open spec fn spec_health_endpoints() -> Seq<Seq<char>> {
    seq![
        "http://localhost:8000/health"@,
        "http://127.0.0.1:8000/health"@,
        "http://localhost:8000/docs"@,
    ]
}

/// The health-check endpoints, in priority order: the primary health endpoint
/// by hostname, the same by loopback address, and the documentation endpoint
/// as a fallback.
pub fn health_endpoints() -> (r: Vec<&'static str>)
    ensures
        r@.len() == spec_health_endpoints().len(),
        forall|i: int| 0 <= i < r@.len() ==> r@[i]@ == spec_health_endpoints()[i],
{
    let mut v: Vec<&'static str> = Vec::new();
    v.push("http://localhost:8000/health");
    v.push("http://127.0.0.1:8000/health");
    v.push("http://localhost:8000/docs");
    v
}

/// The delay that follows `d` in the exponential backoff: doubled, capped at
/// the ceiling.
pub open spec fn spec_next_delay(d: u64) -> u64 {
    if 2 * d > MAX_DELAY_MS {
        MAX_DELAY_MS
    } else {
        (2 * d) as u64
    }
}

/// The delay slept after the `n`-th failed attempt, counting from zero.
pub open spec fn spec_delay_at(n: nat) -> u64
    decreases n,
{
    if n == 0 {
        INITIAL_DELAY_MS
    } else {
        spec_next_delay(spec_delay_at((n - 1) as nat))
    }
}

/// The emitted delay sequence is the initial delay doubled at each step and
/// capped from the fifth attempt onward.
pub proof fn lemma_backoff_sequence()
    ensures
        spec_delay_at(0) == 200,
        spec_delay_at(1) == 400,
        spec_delay_at(2) == 800,
        spec_delay_at(3) == 1600,
        forall|n: nat| n >= 4 ==> spec_delay_at(n) == 2000,
{
    reveal_with_fuel(spec_delay_at, 5);
    assert forall|n: nat| n >= 4 implies spec_delay_at(n) == 2000 by {
        lemma_delay_capped(n);
    }
}

/// Once the cap is reached, every later delay stays at the cap.
proof fn lemma_delay_capped(n: nat)
    requires
        n >= 4,
    ensures
        spec_delay_at(n) == 2000,
    decreases n,
{
    if n == 4 {
        reveal_with_fuel(spec_delay_at, 5);
    } else {
        lemma_delay_capped((n - 1) as nat);
    }
}

/// No delay in the backoff sequence passes the ceiling.
pub proof fn lemma_delay_bounded(n: nat)
    ensures
        spec_delay_at(n) <= MAX_DELAY_MS,
    decreases n,
{
    if n > 0 {
        lemma_delay_bounded((n - 1) as nat);
    }
}

/// Double a delay, capped at the ceiling.
fn next_delay(d: u64) -> (r: u64)
    requires
        d <= MAX_DELAY_MS,
    ensures
        r == spec_next_delay(d),
{
    let doubled = 2 * d;
    if doubled > MAX_DELAY_MS {
        MAX_DELAY_MS
    } else {
        doubled
    }
}

/// The result answering the `k`-th probe of a recorded sequence; probes past
/// the record's end find no endpoint answering.
pub open spec fn result_at(results: Seq<ProbeResult>, k: int) -> ProbeResult {
    if 0 <= k < results.len() {
        results[k]
    } else {
        ProbeResult::NoResponse
    }
}

/// The health-probing loop's decision state: how many attempts have begun and
/// the delay to sleep after the next failed attempt.
pub struct HealthProber {
    attempts_begun: u32,
    delay_ms: u64,
}

impl HealthProber {
    /// How many probing attempts have begun.
    pub closed spec fn spec_attempts(self) -> u32 {
        self.attempts_begun
    }

    /// The delay the next failed attempt will sleep for.
    pub closed spec fn spec_delay(self) -> u64 {
        self.delay_ms
    }

    /// A fresh prober: no attempts begun, initial delay pending.
    pub fn new() -> (r: HealthProber)
        ensures
            r.spec_attempts() == 0,
            r.spec_delay() == INITIAL_DELAY_MS,
    {
        HealthProber { attempts_begun: 0, delay_ms: INITIAL_DELAY_MS }
    }

    /// How many attempts have begun.
    pub fn attempts(&self) -> (r: u32)
        ensures
            r == self.spec_attempts(),
    {
        self.attempts_begun
    }

    /// The delay the next failed attempt will sleep for, in milliseconds.
    pub fn current_delay_ms(&self) -> (r: u64)
        ensures
            r == self.spec_delay(),
    {
        self.delay_ms
    }

    /// Begin one probing iteration. With the attempt budget exhausted,
    /// readiness is forced so the host never blocks on a backend that cannot
    /// be confirmed, and the loop stops with a timeout outcome. Otherwise the
    /// attempt is counted; a flag already set by the output monitor stops the
    /// loop as a success, and an unset flag asks the caller for one probe.
    pub fn begin_attempt(&mut self, ready: &mut ReadinessState) -> (step: ProbeStep)
        ensures
            final(ready).spec_ready() == (old(ready).spec_ready() || old(self).spec_attempts()
                >= MAX_ATTEMPTS),
            old(self).spec_attempts() >= MAX_ATTEMPTS ==> step == ProbeStep::Done(
                ProbeOutcome::TimedOutForcedReady,
            ) && *final(self) == *old(self),
            old(self).spec_attempts() < MAX_ATTEMPTS ==> {
                &&& final(self).spec_attempts() == old(self).spec_attempts() + 1
                &&& final(self).spec_delay() == old(self).spec_delay()
                &&& step == (if old(ready).spec_ready() {
                    ProbeStep::Done(ProbeOutcome::ReadyViaMonitor)
                } else {
                    ProbeStep::Probe
                })
            },
    {
        if self.attempts_begun >= MAX_ATTEMPTS {
            ready.mark_ready();
            return ProbeStep::Done(ProbeOutcome::TimedOutForcedReady);
        }
        self.attempts_begun = self.attempts_begun + 1;
        if ready.is_ready() {
            ProbeStep::Done(ProbeOutcome::ReadyViaMonitor)
        } else {
            ProbeStep::Probe
        }
    }

    /// Record the result of the probe the last begun attempt asked for. A
    /// success-class answer sets the flag and stops the loop; anything else is
    /// "not ready yet": the caller is told to sleep for the current delay,
    /// which is then doubled up to the ceiling.
    pub fn complete_attempt(&mut self, result: ProbeResult, ready: &mut ReadinessState) -> (out:
        AttemptOutcome)
        requires
            old(self).spec_delay() <= MAX_DELAY_MS,
        ensures
            final(ready).spec_ready() == (old(ready).spec_ready() || result
                == ProbeResult::Success),
            result == ProbeResult::Success ==> out == AttemptOutcome::Done(
                ProbeOutcome::ReadyViaProbe,
            ) && *final(self) == *old(self),
            result != ProbeResult::Success ==> {
                &&& out == (AttemptOutcome::Retry { sleep_ms: old(self).spec_delay() })
                &&& final(self).spec_delay() == spec_next_delay(old(self).spec_delay())
                &&& final(self).spec_attempts() == old(self).spec_attempts()
            },
    {
        match result {
            ProbeResult::Success => {
                ready.mark_ready();
                AttemptOutcome::Done(ProbeOutcome::ReadyViaProbe)
            },
            _ => {
                let sleep_ms = self.delay_ms;
                self.delay_ms = next_delay(self.delay_ms);
                AttemptOutcome::Retry { sleep_ms }
            },
        }
    }

    /// Run the whole probing loop against a recorded sequence of probe
    /// results, where entry `k` answers the `k`-th probe actually made and
    /// probes past the record's end find no endpoint answering. Returns the
    /// outcome and the delays slept, in order. Whatever the record holds, the
    /// loop always leaves the flag ready: confirmation never blocks the host
    /// forever. The delays follow the exponential backoff sequence, and at
    /// most the budget of attempts is made.
    pub fn run_to_completion(&mut self, results: &Vec<ProbeResult>, ready: &mut ReadinessState)
        -> (r: (ProbeOutcome, Vec<u64>))
        requires
            old(self).spec_attempts() == 0,
            old(self).spec_delay() == INITIAL_DELAY_MS,
        ensures
            final(ready).spec_ready(),
            r.1@.len() <= MAX_ATTEMPTS,
            forall|k: int| 0 <= k < r.1@.len() ==> r.1@[k] == spec_delay_at(k as nat),
            old(ready).spec_ready() ==> r.0 == ProbeOutcome::ReadyViaMonitor && r.1@.len() == 0,
            (!old(ready).spec_ready() && forall|k: int|
                0 <= k < MAX_ATTEMPTS ==> result_at(results@, k) != ProbeResult::Success) ==> (r.0
                == ProbeOutcome::TimedOutForcedReady && r.1@.len() == MAX_ATTEMPTS),
            forall|k: int|
                (!old(ready).spec_ready() && 0 <= k < MAX_ATTEMPTS && result_at(results@, k)
                    == ProbeResult::Success && (forall|j: int|
                    0 <= j < k ==> result_at(results@, j) != ProbeResult::Success)) ==> (r.0
                    == ProbeOutcome::ReadyViaProbe && r.1@.len() == k),
            final(self).spec_attempts() <= MAX_ATTEMPTS,
    {
        let ghost ready_at_entry: ReadinessState = *ready;
        let mut delays: Vec<u64> = Vec::new();
        let mut k: usize = 0;
        loop
            invariant
                ready_at_entry == *old(ready),
                self.spec_attempts() as int == k as int,
                k <= MAX_ATTEMPTS,
                self.spec_delay() == spec_delay_at(k as nat),
                delays@.len() == k as int,
                forall|j: int| 0 <= j < k ==> delays@[j] == spec_delay_at(j as nat),
                forall|j: int| 0 <= j < k ==> result_at(results@, j) != ProbeResult::Success,
                ready.spec_ready() == ready_at_entry.spec_ready(),
                k > 0 ==> !ready_at_entry.spec_ready(),
            decreases MAX_ATTEMPTS - k,
        {
            let step = self.begin_attempt(ready);
            match step {
                ProbeStep::Done(outcome) => {
                    return (outcome, delays);
                },
                ProbeStep::Probe => {
                    let result = if k < results.len() {
                        results[k]
                    } else {
                        ProbeResult::NoResponse
                    };
                    proof {
                        lemma_delay_bounded(k as nat);
                        lemma_delay_bounded((k + 1) as nat);
                        assert(k < MAX_ATTEMPTS);
                        assert(result == result_at(results@, k as int));
                    }
                    let out = self.complete_attempt(result, ready);
                    match out {
                        AttemptOutcome::Done(outcome) => {
                            return (outcome, delays);
                        },
                        AttemptOutcome::Retry { sleep_ms } => {
                            delays.push(sleep_ms);
                            k += 1;
                        },
                    }
                },
            }
        }
    }
}

} // verus!
