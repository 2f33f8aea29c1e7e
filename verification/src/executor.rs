use crate::config::ExponentialBackoffConfig;
use vstd::prelude::*;

verus! {

/// What the executor does once an attempt has produced a result and the
/// predicate has judged it.
#[derive(Clone, Copy, Debug, PartialEq, Eq, Structural)]
pub enum RetryDecision {
    /// The predicate did not ask for a retry: the result is returned as is.
    Accept,
    /// A retry was asked for, but the retries are used up: the last result is
    /// returned. A graceful stop, not a failure.
    Exhausted,
    /// A retry was asked for, but its wait would push the elapsed time past
    /// the overall ceiling: the last result is returned without sleeping.
    /// A graceful stop, not a failure.
    BudgetExceeded,
    /// Sleep this many nanoseconds, then run the next attempt.
    Wait(u64),
}

/// The optional ceiling on the total time an execution may spend waiting and
/// running. Only the decision to begin a wait is held to it: an operation
/// body that is slow by itself can still push the wall time past the ceiling.
#[derive(Clone, Copy, Debug, PartialEq, Eq, Structural)]
pub struct ExecutionBudget {
    /// The ceiling in nanoseconds, or `None` for no ceiling.
    pub limit: Option<u64>,
}

impl ExecutionBudget {
    /// A wait of `candidate` may begin after `elapsed` nanoseconds: either
    /// there is no ceiling, or the wait ends at or under it.
    pub open spec fn permits_spec(self, elapsed: int, candidate: int) -> bool {
        match self.limit {
            Some(t) => elapsed + candidate <= t,
            None => true,
        }
    }

    /// Decide whether a wait of `candidate` nanoseconds may begin once
    /// `elapsed` nanoseconds have passed since the invocation started.
    pub fn permits(&self, elapsed: u128, candidate: u64) -> (ok: bool)
        ensures
            ok == self.permits_spec(elapsed as int, candidate as int),
    {
        match self.limit {
            Some(t) => {
                let cap: u128 = t as u128;
                let c: u128 = candidate as u128;
                c <= cap && elapsed <= cap - c
            },
            None => true,
        }
    }
}

/// Where one invocation stands: the 0-based index of the attempt that runs
/// (or just ran), and the time elapsed since the invocation began, in
/// nanoseconds. Created at invocation start, discarded at return.
#[derive(Clone, Copy, Debug, PartialEq, Eq, Structural)]
pub struct AttemptState {
    /// 0-based attempt index; the first invocation of the operation is
    /// attempt 0.
    pub attempt: i32,
    /// Nanoseconds elapsed since the invocation began.
    pub elapsed: u128,
}

impl AttemptState {
    /// The state at invocation start: attempt 0 is about to run and nothing
    /// has elapsed.
    pub fn start() -> (s: AttemptState)
        ensures
            s.attempt == 0,
            s.elapsed == 0,
    {
        AttemptState { attempt: 0, elapsed: 0 }
    }

    /// The state after the scheduled wait: the next attempt begins, with the
    /// wait added to the elapsed time. A caller that measures real time puts
    /// its own reading in `elapsed` instead.
    pub fn advance(self, delay: u64) -> (s: AttemptState)
        requires
            self.attempt < i32::MAX,
            self.elapsed + delay <= u128::MAX,
        ensures
            s.attempt == self.attempt + 1,
            s.elapsed == self.elapsed + delay,
    {
        AttemptState { attempt: self.attempt + 1, elapsed: self.elapsed + (delay as u128) }
    }
}

impl ExponentialBackoffConfig {
    /// The executor's step, as a value: after attempt number `attempt` with
    /// `elapsed` nanoseconds gone, the predicate having answered
    /// `wants_retry`, the execution accepts, stops exhausted, stops for the
    /// budget, or waits the scheduled delay.
    pub open spec fn decision_spec(self, attempt: int, elapsed: int, wants_retry: bool) -> RetryDecision {
        if !wants_retry {
            RetryDecision::Accept
        } else if attempt >= self.max_retries {
            RetryDecision::Exhausted
        } else if !(ExecutionBudget { limit: self.t_wait_max }).permits_spec(
            elapsed,
            self.delay_spec(attempt as nat),
        ) {
            RetryDecision::BudgetExceeded
        } else {
            RetryDecision::Wait(self.delay_spec(attempt as nat) as u64)
        }
    }

    /// Decide what follows the attempt described by `state`, whose result the
    /// predicate has judged: `wants_retry` is the predicate's verdict, `true`
    /// meaning "retry". The predicate is consulted after every attempt, the
    /// one whose value is finally returned included; no wait ever follows an
    /// accepted result, every scheduled wait is within the per-wait cap, and
    /// no wait is begun that would pass the overall ceiling.
    pub fn next_decision(&self, state: &AttemptState, wants_retry: bool) -> (d: RetryDecision)
        requires
            self.valid(),
            state.attempt >= 0,
        ensures
            d == self.decision_spec(state.attempt as int, state.elapsed as int, wants_retry),
            !wants_retry ==> d == RetryDecision::Accept,
            d matches RetryDecision::Wait(w) ==> w == self.delay_spec(state.attempt as nat),
            d matches RetryDecision::Wait(w) ==> (self.backoff_max matches Some(cap) ==> w <= cap),
            d matches RetryDecision::Wait(w) ==> (self.t_wait_max matches Some(t) ==> state.elapsed + w <= t),
    {
        proof {
            self.lemma_delay_spec_bounds(state.attempt as nat);
        }
        if !wants_retry {
            return RetryDecision::Accept;
        }
        if state.attempt >= self.max_retries {
            return RetryDecision::Exhausted;
        }
        let delay = self.delay_for(state.attempt);
        let budget = ExecutionBudget { limit: self.t_wait_max };
        if !budget.permits(state.elapsed, delay) {
            return RetryDecision::BudgetExceeded;
        }
        RetryDecision::Wait(delay)
    }
}

/// What one whole retry sequence did, under the model in which the operation
/// itself takes no time: how often the operation ran, the waits scheduled
/// between the attempts, their sum, and the decision that ended the sequence.
#[derive(Debug)]
pub struct SimulationReport {
    /// How many times the operation was invoked; always at least once.
    pub invocations: usize,
    /// The waits scheduled, in order: one fewer than the invocations.
    pub waits: Vec<u64>,
    /// The sum of the waits, in nanoseconds.
    pub total_wait: u128,
    /// The decision that ended the sequence; never a wait.
    pub outcome: RetryDecision,
}

impl ExponentialBackoffConfig {
    /// The elapsed time before attempt `k` when every earlier attempt ended
    /// in a wait and the operation itself takes no time: the sum of the
    /// scheduled delays of attempts `0 .. k`.
    pub open spec fn cum_wait(self, k: nat) -> int
        decreases k,
    {
        if k == 0 {
            0
        } else {
            self.cum_wait((k - 1) as nat) + self.delay_spec((k - 1) as nat)
        }
    }

    /// The decision after attempt `k` in the zero-latency model, where the
    /// elapsed time is exactly the waits scheduled so far and `verdicts[k]`
    /// is the predicate's verdict on attempt `k`'s result.
    pub open spec fn model_decision(self, verdicts: Seq<bool>, k: nat) -> RetryDecision {
        self.decision_spec(k as int, self.cum_wait(k), verdicts[k as int])
    }

    /// Attempt `k` runs in the zero-latency model: every earlier attempt
    /// ended in a wait.
    pub open spec fn model_reaches(self, verdicts: Seq<bool>, k: nat) -> bool {
        forall|j: nat| j < k ==> (self.model_decision(verdicts, j) is Wait)
    }

    /// The cumulative wait grows by at most one `u64` range per attempt.
    pub proof fn lemma_cum_wait_bounds(self, k: nat)
        requires
            self.backoff.den >= 1,
        ensures
            0 <= self.cum_wait(k) <= k * (u64::MAX as int),
        decreases k,
    {
        if k > 0 {
            self.lemma_cum_wait_bounds((k - 1) as nat);
            self.lemma_delay_spec_bounds((k - 1) as nat);
        }
    }

    /// Run a whole retry sequence under the zero-latency model, the operation
    /// stood for by `verdicts`: its entry `k` is the predicate's verdict on
    /// the result of attempt `k`, `true` meaning "retry". Exactly one verdict
    /// is consumed per attempt — internal short-circuits of the operation are
    /// the caller's business and always end in a single judged result.
    ///
    /// The report pins the run down exactly: attempts `0 ..= invocations - 1`
    /// each ran after every earlier one ended in a wait, wait `j` is the
    /// scheduled delay of attempt `j`, and the last attempt's decision — the
    /// outcome — is the first one that is not a wait.
    pub fn run_simulation(&self, verdicts: &Vec<bool>) -> (r: SimulationReport)
        requires
            self.valid(),
            verdicts.len() > self.max_retries as int,
        ensures
            1 <= r.invocations <= self.max_retries + 1,
            self.model_reaches(verdicts@, (r.invocations - 1) as nat),
            r.outcome == self.model_decision(verdicts@, (r.invocations - 1) as nat),
            !(r.outcome is Wait),
            r.waits@.len() == r.invocations - 1,
            forall|j: int| 0 <= j < r.waits@.len() ==> r.waits@[j] == self.delay_spec(j as nat),
            r.total_wait == self.cum_wait((r.invocations - 1) as nat),
    {
        let mut state = AttemptState::start();
        let mut waits: Vec<u64> = Vec::new();
        loop
            invariant
                self.valid(),
                verdicts@.len() > self.max_retries as int,
                0 <= state.attempt <= self.max_retries,
                state.elapsed == self.cum_wait(state.attempt as nat),
                waits@.len() == state.attempt as int,
                forall|j: int| 0 <= j < waits@.len() ==> waits@[j] == self.delay_spec(j as nat),
                self.model_reaches(verdicts@, state.attempt as nat),
            decreases self.max_retries - state.attempt,
        {
            let verdict = verdicts[state.attempt as usize];
            let d = self.next_decision(&state, verdict);
            if let RetryDecision::Wait(w) = d {
                proof {
                    self.lemma_cum_wait_bounds(state.attempt as nat);
                    assert(self.model_decision(verdicts@, state.attempt as nat) is Wait);
                    assert forall|j: nat| j < (state.attempt + 1) as nat implies (
                        self.model_decision(verdicts@, j) is Wait) by {
                        if j < state.attempt as nat {
                            assert(self.model_decision(verdicts@, j) is Wait);
                        }
                    }
                }
                waits.push(w);
                state = state.advance(w);
            } else {
                let invocations: usize = (state.attempt as usize) + 1;
                proof {
                    assert(self.model_decision(verdicts@, state.attempt as nat) == d);
                }
                return SimulationReport { invocations, waits, total_wait: state.elapsed, outcome: d };
            }
        }
    }
}

} // verus!
