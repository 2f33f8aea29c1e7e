use crate::config::ExponentialBackoffConfig;
use crate::executor::RetryDecision;
use vstd::arithmetic::mul::{lemma_mul_is_associative, lemma_mul_is_commutative};
use vstd::arithmetic::power::pow;
use vstd::prelude::*;

verus! {

/// `w·b^0 + w·b^1 + ... + w·b^(n-1)`: the geometric series that an uncapped,
/// exactly-representable backoff schedule sums to.
pub open spec fn geometric_sum(w: int, b: int, n: nat) -> int
    decreases n,
{
    if n == 0 {
        0
    } else {
        geometric_sum(w, b, (n - 1) as nat) + w * pow(b, (n - 1) as nat)
    }
}

/// With a per-wait cap configured, every scheduled wait is at most the cap,
/// whatever the attempt.
pub proof fn lemma_single_wait_capped(cfg: ExponentialBackoffConfig, attempt: nat, cap: u64)
    requires
        cfg.backoff_max == Some(cap),
    ensures
        cfg.delay_spec(attempt) <= cap,
{
}

/// A wait is only ever begun when it fits the overall ceiling: whenever the
/// executor decides to wait `w` after `elapsed` nanoseconds, the wait is the
/// scheduled delay and — with a ceiling configured — ends at or under it.
/// The wall time can still pass the ceiling through the operation's own
/// latency, which no wait decision controls.
pub proof fn lemma_budget_respected(
    cfg: ExponentialBackoffConfig,
    attempt: int,
    elapsed: int,
    wants_retry: bool,
    w: u64,
)
    requires
        cfg.valid(),
        0 <= attempt,
        cfg.decision_spec(attempt, elapsed, wants_retry) == RetryDecision::Wait(w),
    ensures
        w == cfg.delay_spec(attempt as nat),
        cfg.t_wait_max matches Some(t) ==> elapsed + w <= t,
{
    cfg.lemma_delay_spec_bounds(attempt as nat);
}

/// A result the predicate does not send back for retry ends the run at once:
/// if attempt `k` ran and its verdict was "no retry", the decision after it
/// is to accept — no wait follows, and with `lemma_terminal_attempt_unique`
/// the run made exactly `k + 1` invocations.
pub proof fn lemma_accept_ends_run(cfg: ExponentialBackoffConfig, verdicts: Seq<bool>, k: nat)
    requires
        !verdicts[k as int],
    ensures
        cfg.model_decision(verdicts, k) == RetryDecision::Accept,
{
}

/// A run stops exactly once: at most one attempt both runs (every earlier
/// attempt ended in a wait) and itself ends in something other than a wait.
pub proof fn lemma_terminal_attempt_unique(
    cfg: ExponentialBackoffConfig,
    verdicts: Seq<bool>,
    k1: nat,
    k2: nat,
)
    requires
        cfg.model_reaches(verdicts, k1),
        !(cfg.model_decision(verdicts, k1) is Wait),
        cfg.model_reaches(verdicts, k2),
        !(cfg.model_decision(verdicts, k2) is Wait),
    ensures
        k1 == k2,
{
    if k1 < k2 {
        assert(cfg.model_decision(verdicts, k1) is Wait);
    } else if k2 < k1 {
        assert(cfg.model_decision(verdicts, k2) is Wait);
    }
}

/// If attempt `k` runs and its verdict is "no retry", the run makes exactly
/// `k + 1` invocations: attempt `k` accepts, no wait follows it, and no other
/// attempt can be the terminal one.
pub proof fn lemma_false_verdict_invocation_count(
    cfg: ExponentialBackoffConfig,
    verdicts: Seq<bool>,
    k: nat,
    terminal: nat,
)
    requires
        !verdicts[k as int],
        cfg.model_reaches(verdicts, k),
        cfg.model_reaches(verdicts, terminal),
        !(cfg.model_decision(verdicts, terminal) is Wait),
    ensures
        terminal == k,
        cfg.model_decision(verdicts, k) == RetryDecision::Accept,
{
    lemma_accept_ends_run(cfg, verdicts, k);
    lemma_terminal_attempt_unique(cfg, verdicts, k, terminal);
}

/// With no overall ceiling and a predicate that always asks for a retry, the
/// run uses every retry: each attempt before `max_retries` ends in its
/// scheduled wait, attempt `max_retries` is reached, and it ends exhausted.
/// The terminal attempt can be no other, so the operation is invoked exactly
/// `max_retries + 1` times and the cumulative wait is the sum of the
/// scheduled delays of attempts `0 .. max_retries`.
pub proof fn lemma_always_retry_exhausts(cfg: ExponentialBackoffConfig, verdicts: Seq<bool>)
    requires
        cfg.valid(),
        cfg.t_wait_max is None,
        forall|k: int| 0 <= k <= cfg.max_retries ==> verdicts[k],
    ensures
        forall|k: nat|
            k < cfg.max_retries ==> cfg.model_decision(verdicts, k) == RetryDecision::Wait(
                cfg.delay_spec(k) as u64,
            ),
        cfg.model_reaches(verdicts, cfg.max_retries as nat),
        cfg.model_decision(verdicts, cfg.max_retries as nat) == RetryDecision::Exhausted,
        forall|k: nat|
            cfg.model_reaches(verdicts, k) && !(cfg.model_decision(verdicts, k) is Wait)
                ==> k == cfg.max_retries,
{
    assert forall|k: nat| k < cfg.max_retries implies cfg.model_decision(verdicts, k)
        == RetryDecision::Wait(cfg.delay_spec(k) as u64) by {
        assert(verdicts[k as int]);
    }
    assert(verdicts[cfg.max_retries as int]);
    assert forall|k: nat|
        cfg.model_reaches(verdicts, k) && !(cfg.model_decision(verdicts, k) is Wait)
            implies k == cfg.max_retries by {
        lemma_terminal_attempt_unique(cfg, verdicts, k, cfg.max_retries as nat);
    }
}

impl ExponentialBackoffConfig {
    /// With a whole-number growth factor whose powers keep the delays inside
    /// the `u64` range, the raw delay of attempt `k` is exactly
    /// `t_wait · num^k`: no truncation and no saturation happen.
    pub proof fn lemma_raw_delay_power(self, k: nat)
        requires
            self.valid(),
            self.backoff.den == 1,
            forall|j: nat|
                j <= k ==> self.t_wait * #[trigger] pow(self.backoff.num as int, j) <= u64::MAX,
        ensures
            self.raw_delay(k) == self.t_wait * pow(self.backoff.num as int, k),
        decreases k,
    {
        reveal(pow);
        let b = self.backoff.num as int;
        if k > 0 {
            self.lemma_raw_delay_power((k - 1) as nat);
            let prev = self.raw_delay((k - 1) as nat);
            lemma_mul_is_associative(self.t_wait as int, pow(b, (k - 1) as nat), b);
            lemma_mul_is_commutative(pow(b, (k - 1) as nat), b);
            assert(prev * b == self.t_wait * pow(b, k));
        } else {
            assert(pow(b, 0) == 1);
        }
    }

    /// Under the same conditions, with no per-wait cap, the cumulative wait
    /// before attempt `n` is the geometric series
    /// `t_wait·num^0 + ... + t_wait·num^(n-1)`.
    pub proof fn lemma_cum_wait_geometric(self, n: nat)
        requires
            self.valid(),
            self.backoff.den == 1,
            self.backoff_max is None,
            forall|j: nat|
                j < n ==> self.t_wait * #[trigger] pow(self.backoff.num as int, j) <= u64::MAX,
        ensures
            self.cum_wait(n) == geometric_sum(self.t_wait as int, self.backoff.num as int, n),
        decreases n,
    {
        if n > 0 {
            self.lemma_cum_wait_geometric((n - 1) as nat);
            self.lemma_raw_delay_power((n - 1) as nat);
        }
    }
}

} // verus!
