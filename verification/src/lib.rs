//! An exponential-backoff retry scheduler.
//!
//! A fallible operation is re-run until a caller-supplied predicate accepts
//! its result, a maximum number of retries is reached, or one more wait would
//! push the execution past an overall time budget. Between attempts the
//! executor waits; the first wait is `t_wait` and each further wait grows by
//! the configured backoff factor, clamped by an optional per-wait cap.

mod config;
mod executor;
mod laws;
mod schedule;

pub use config::{Backoff, ExponentialBackoffConfig, RetryError};
pub use executor::{AttemptState, ExecutionBudget, RetryDecision, SimulationReport};
pub use laws::{
    geometric_sum, lemma_accept_ends_run, lemma_always_retry_exhausts, lemma_budget_respected,
    lemma_false_verdict_invocation_count, lemma_single_wait_capped, lemma_terminal_attempt_unique,
};
pub use schedule::sat_u64;
