use vstd::prelude::*;

verus! {

/// Multiplicative growth factor applied to the wait duration once per retry,
/// held as the exact rational `num / den`: `2/1` doubles each wait, `3/2`
/// grows it by half, `1/1` keeps every wait equal to the first.
///
/// A factor below one (shrinking waits) is accepted: nothing in the schedule
/// requires growth, only that `den` is nonzero.
#[derive(Clone, Copy, Debug, PartialEq, Eq, Structural)]
pub struct Backoff {
    /// Numerator of the growth ratio.
    pub num: u64,
    /// Denominator of the growth ratio; a configuration is only valid when
    /// this is nonzero.
    pub den: u64,
}

impl Backoff {
    /// The ratio `factor / 1`: each wait is the previous one multiplied by
    /// the whole number `factor`.
    pub fn from_integer(factor: u64) -> (b: Backoff)
        ensures
            b.num == factor,
            b.den == 1,
    {
        Backoff { num: factor, den: 1 }
    }

    /// The ratio `num / den`.
    pub fn from_ratio(num: u64, den: u64) -> (b: Backoff)
        ensures
            b.num == num,
            b.den == den,
    {
        Backoff { num, den }
    }
}

/// Why a retry execution could not run at all.
#[derive(Clone, Copy, Debug, PartialEq, Eq, Structural)]
pub enum RetryError {
    /// The configuration admits no attempt: fewer than one retry, a zero
    /// initial wait, or a growth ratio with a zero denominator. Raised before
    /// the operation is invoked even once.
    InvalidConfiguration,
}

/// How a fallible operation is retried: up to `max_retries` re-invocations,
/// waiting `t_wait` nanoseconds before the first retry and growing the wait
/// by `backoff` before each further one. `backoff_max` caps every single
/// wait; `t_wait_max` is an overall ceiling — no wait begins that would push
/// the total past it.
///
/// The configuration is immutable and may be shared freely across
/// invocations; every invocation starts its own attempt count and clock.
#[derive(Clone, Copy, Debug, PartialEq, Eq, Structural)]
pub struct ExponentialBackoffConfig {
    /// Maximum number of retries after the first invocation; must be at
    /// least one.
    pub max_retries: i32,
    /// Initial wait, in nanoseconds; must be positive.
    pub t_wait: u64,
    /// Growth factor applied to the wait once per retry.
    pub backoff: Backoff,
    /// Overall time ceiling, in nanoseconds: a wait that would push the
    /// elapsed time past it is never begun, and the execution stops
    /// gracefully instead.
    pub t_wait_max: Option<u64>,
    /// Cap on each single wait, in nanoseconds: waits grow up to it, then
    /// stay constant at it.
    pub backoff_max: Option<u64>,
}

impl ExponentialBackoffConfig {
    /// The configuration can drive an execution: at least one retry, a
    /// positive initial wait, and a well-formed growth ratio.
    pub open spec fn valid(self) -> bool {
        &&& self.max_retries >= 1
        &&& self.t_wait > 0
        &&& self.backoff.den >= 1
    }

    /// Accept exactly the configurations that can drive an execution, and
    /// fail fast with `InvalidConfiguration` on every other one — before any
    /// attempt is made.
    pub fn validate(&self) -> (r: Result<(), RetryError>)
        ensures
            r is Ok <==> self.valid(),
            r is Err ==> r->Err_0 == RetryError::InvalidConfiguration,
    {
        if self.max_retries < 1 || self.t_wait == 0 || self.backoff.den == 0 {
            Err(RetryError::InvalidConfiguration)
        } else {
            Ok(())
        }
    }
}

} // verus!
