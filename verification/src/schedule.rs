use crate::config::ExponentialBackoffConfig;
use vstd::arithmetic::div_mod::{lemma_div_is_ordered_by_denominator, lemma_div_pos_is_pos};
use vstd::arithmetic::mul::{lemma_mul_nonnegative, lemma_mul_upper_bound};
use vstd::prelude::*;

verus! {

/// `x` held to the `u64` range from above: growth saturates instead of
/// overflowing, and a saturated wait still behaves (is clamped and
/// budget-checked) like any other.
pub open spec fn sat_u64(x: int) -> int {
    if x > u64::MAX as int {
        u64::MAX as int
    } else {
        x
    }
}

/// `(w * num) / den`, truncated to whole nanoseconds and saturated to the
/// `u64` range: one growth step of the wait duration.
fn mul_div_sat(w: u64, num: u64, den: u64) -> (r: u64)
    requires
        den >= 1,
    ensures
        r == sat_u64(w * num / den as int),
{
    proof {
        lemma_mul_upper_bound(w as int, u64::MAX as int, num as int, u64::MAX as int);
        lemma_mul_nonnegative(w as int, num as int);
        lemma_div_pos_is_pos(w * num, den as int);
        lemma_div_is_ordered_by_denominator(w * num, 1, den as int);
    }
    let prod: u128 = (w as u128) * (num as u128);
    let q: u128 = prod / (den as u128);
    if q > u64::MAX as u128 {
        u64::MAX
    } else {
        q as u64
    }
}

impl ExponentialBackoffConfig {
    /// The uncapped wait before retry number `attempt` (0-based): the initial
    /// wait grown `attempt` times by the backoff ratio. Each step truncates
    /// to whole nanoseconds and saturates at `u64::MAX`; with a whole-number
    /// ratio and no saturation this is exactly `t_wait * num^attempt`.
    pub open spec fn raw_delay(self, attempt: nat) -> int
        decreases attempt,
    {
        if attempt == 0 {
            self.t_wait as int
        } else {
            sat_u64(self.raw_delay((attempt - 1) as nat) * self.backoff.num / self.backoff.den as int)
        }
    }

    /// The wait scheduled before retry number `attempt`: the raw delay,
    /// clamped to `backoff_max` when that cap is set.
    pub open spec fn delay_spec(self, attempt: nat) -> int {
        match self.backoff_max {
            Some(cap) => if self.raw_delay(attempt) > cap as int {
                cap as int
            } else {
                self.raw_delay(attempt)
            },
            None => self.raw_delay(attempt),
        }
    }

    /// Every raw delay is a `u64` value: growth saturates rather than
    /// escaping the range.
    pub proof fn lemma_raw_delay_bounds(self, attempt: nat)
        requires
            self.backoff.den >= 1,
        ensures
            0 <= self.raw_delay(attempt) <= u64::MAX,
        decreases attempt,
    {
        if attempt > 0 {
            self.lemma_raw_delay_bounds((attempt - 1) as nat);
            let w = self.raw_delay((attempt - 1) as nat);
            lemma_mul_nonnegative(w, self.backoff.num as int);
            lemma_div_pos_is_pos(w * self.backoff.num, self.backoff.den as int);
        }
    }

    /// So is every scheduled delay.
    pub proof fn lemma_delay_spec_bounds(self, attempt: nat)
        requires
            self.backoff.den >= 1,
        ensures
            0 <= self.delay_spec(attempt) <= u64::MAX,
    {
        self.lemma_raw_delay_bounds(attempt);
    }

    /// Compute the wait before retry number `attempt`, 0-based: `t_wait`
    /// grown `attempt` times by `backoff`, clamped to `backoff_max` when that
    /// cap is set. Deterministic and side-effect free.
    pub fn delay_for(&self, attempt: i32) -> (d: u64)
        requires
            self.valid(),
            attempt >= 0,
        ensures
            d == self.delay_spec(attempt as nat),
            self.backoff_max matches Some(cap) ==> d <= cap,
    {
        proof {
            self.lemma_raw_delay_bounds(attempt as nat);
        }
        let mut w: u64 = self.t_wait;
        let mut i: i32 = 0;
        while i < attempt
            invariant
                0 <= i <= attempt,
                self.valid(),
                w == self.raw_delay(i as nat),
            decreases attempt - i,
        {
            w = mul_div_sat(w, self.backoff.num, self.backoff.den);
            i = i + 1;
        }
        match self.backoff_max {
            Some(cap) => if w > cap {
                cap
            } else {
                w
            },
            None => w,
        }
    }
}

} // verus!
