use retry_if::{AttemptState, Backoff, ExecutionBudget, ExponentialBackoffConfig, RetryDecision};

const SECOND: u64 = 1_000_000_000;

fn config(
    max_retries: i32,
    t_wait: u64,
    backoff: Backoff,
    t_wait_max: Option<u64>,
    backoff_max: Option<u64>,
) -> ExponentialBackoffConfig {
    ExponentialBackoffConfig { max_retries, t_wait, backoff, t_wait_max, backoff_max }
}

#[test]
fn an_accepted_result_is_never_followed_by_a_wait() {
    let cfg = config(5, SECOND, Backoff::from_integer(2), None, None);
    let state = AttemptState::start();
    assert_eq!(RetryDecision::Accept, cfg.next_decision(&state, false));
}

#[test]
fn retries_are_exhausted_at_the_configured_count() {
    let cfg = config(3, SECOND, Backoff::from_integer(2), None, None);
    let at_limit = AttemptState { attempt: 3, elapsed: 0 };
    assert_eq!(RetryDecision::Exhausted, cfg.next_decision(&at_limit, true));
    let below_limit = AttemptState { attempt: 2, elapsed: 0 };
    assert_eq!(RetryDecision::Wait(4 * SECOND), cfg.next_decision(&below_limit, true));
}

#[test]
fn a_wait_that_would_pass_the_ceiling_is_never_begun() {
    let cfg = config(5, SECOND, Backoff::from_integer(2), Some(3 * SECOND), None);
    // The second wait (2s) would end at 3s exactly: still permitted.
    let fits = AttemptState { attempt: 1, elapsed: SECOND as u128 };
    assert_eq!(RetryDecision::Wait(2 * SECOND), cfg.next_decision(&fits, true));
    // One nanosecond later it would pass the ceiling: the executor stops instead.
    let too_late = AttemptState { attempt: 1, elapsed: SECOND as u128 + 1 };
    assert_eq!(RetryDecision::BudgetExceeded, cfg.next_decision(&too_late, true));
}

#[test]
fn the_budget_checks_the_end_of_the_wait() {
    let budget = ExecutionBudget { limit: Some(10 * SECOND) };
    assert!(budget.permits(8 * SECOND as u128, 2 * SECOND));
    assert!(!budget.permits(8 * SECOND as u128, 2 * SECOND + 1));
    let unlimited = ExecutionBudget { limit: None };
    assert!(unlimited.permits(u128::MAX, u64::MAX));
}

#[test]
fn advancing_counts_the_wait_and_the_attempt() {
    let state = AttemptState::start().advance(SECOND).advance(2 * SECOND);
    assert_eq!(2, state.attempt);
    assert_eq!(3 * SECOND as u128, state.elapsed);
}

// With no caps and a predicate that always retries, every retry is used: the
// waits are 1s, 2s, 4s, 8s, 16s and the operation runs six times in 31s.
#[test]
fn an_always_true_predicate_uses_every_retry() {
    let cfg = config(5, SECOND, Backoff::from_integer(2), None, None);
    let report = cfg.run_simulation(&vec![true; 6]);
    assert_eq!(6, report.invocations);
    assert_eq!(vec![SECOND, 2 * SECOND, 4 * SECOND, 8 * SECOND, 16 * SECOND], report.waits);
    assert_eq!(31 * SECOND as u128, report.total_wait);
    assert_eq!(RetryDecision::Exhausted, report.outcome);
}

// A linear schedule: five retries of 3s each, 15s in all, six invocations.
#[test]
fn a_linear_schedule_waits_in_constant_steps() {
    let cfg = config(5, 3 * SECOND, Backoff::from_integer(1), None, None);
    let report = cfg.run_simulation(&vec![true; 6]);
    assert_eq!(6, report.invocations);
    assert_eq!(vec![3 * SECOND; 5], report.waits);
    assert_eq!(15 * SECOND as u128, report.total_wait);
    assert_eq!(RetryDecision::Exhausted, report.outcome);
}

// A capped exponential schedule: waits 1s, 2s, 2.5s, 2.5s sum to 8s; a fifth
// wait of 2.5s would end at 10.5s, past the 10s ceiling, so the execution
// stops after five invocations.
#[test]
fn the_ceiling_stops_a_capped_exponential_schedule() {
    let cap = 5 * SECOND / 2;
    let cfg = config(25, SECOND, Backoff::from_integer(2), Some(10 * SECOND), Some(cap));
    let report = cfg.run_simulation(&vec![true; 26]);
    assert_eq!(5, report.invocations);
    assert_eq!(vec![SECOND, 2 * SECOND, cap, cap], report.waits);
    assert_eq!(8 * SECOND as u128, report.total_wait);
    assert_eq!(RetryDecision::BudgetExceeded, report.outcome);
}

// A predicate that stops asking after two retries: three invocations, waits
// of 1s and 3s, about 4s in all.
#[test]
fn a_dynamic_predicate_stops_the_run_early() {
    let cfg = config(5, SECOND, Backoff::from_integer(3), None, None);
    // The operation counts its invocations; the predicate retries while the
    // count is below three.
    let verdicts: Vec<bool> = (1..=6).map(|count| count < 3).collect();
    let report = cfg.run_simulation(&verdicts);
    assert_eq!(3, report.invocations);
    assert_eq!(vec![SECOND, 3 * SECOND], report.waits);
    assert_eq!(4 * SECOND as u128, report.total_wait);
    assert_eq!(RetryDecision::Accept, report.outcome);
}

// A result accepted at once: a single invocation and no waiting at all.
#[test]
fn an_immediately_accepted_result_runs_once() {
    let cfg = config(5, SECOND, Backoff::from_integer(2), None, None);
    let report = cfg.run_simulation(&vec![false; 6]);
    assert_eq!(1, report.invocations);
    assert!(report.waits.is_empty());
    assert_eq!(0, report.total_wait);
    assert_eq!(RetryDecision::Accept, report.outcome);
}

// Both caps together: raw waits 1s, 2s, 4s, 8s, 16s are clamped to
// 1s, 2s, 3s, 3s, 3s; after 9s of waits the next 3s wait would end at 12s,
// past the 10s ceiling.
#[test]
fn both_caps_shape_the_run_together() {
    let cfg =
        config(5, SECOND, Backoff::from_integer(2), Some(10 * SECOND), Some(3 * SECOND));
    let report = cfg.run_simulation(&vec![true; 6]);
    assert_eq!(5, report.invocations);
    assert_eq!(vec![SECOND, 2 * SECOND, 3 * SECOND, 3 * SECOND], report.waits);
    assert_eq!(9 * SECOND as u128, report.total_wait);
    assert_eq!(RetryDecision::BudgetExceeded, report.outcome);
}

// Every wait of a capped run stays under the cap, whatever ends the run.
#[test]
fn no_single_wait_passes_the_cap() {
    let cap = 5 * SECOND / 2;
    let cfg = config(25, SECOND, Backoff::from_integer(2), Some(10 * SECOND), Some(cap));
    let report = cfg.run_simulation(&vec![true; 26]);
    assert!(report.waits.iter().all(|w| *w <= cap));
}
