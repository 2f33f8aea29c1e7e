use retry_if::{Backoff, ExponentialBackoffConfig};

const SECOND: u64 = 1_000_000_000;

fn config(t_wait: u64, backoff: Backoff, backoff_max: Option<u64>) -> ExponentialBackoffConfig {
    ExponentialBackoffConfig { max_retries: 5, t_wait, backoff, t_wait_max: None, backoff_max }
}

#[test]
fn doubling_waits_grow_exponentially() {
    let cfg = config(SECOND, Backoff::from_integer(2), None);
    let delays: Vec<u64> = (0..5).map(|a| cfg.delay_for(a)).collect();
    assert_eq!(vec![SECOND, 2 * SECOND, 4 * SECOND, 8 * SECOND, 16 * SECOND], delays);
}

#[test]
fn a_factor_of_one_keeps_waits_constant() {
    let cfg = config(3 * SECOND, Backoff::from_integer(1), None);
    for attempt in 0..10 {
        assert_eq!(3 * SECOND, cfg.delay_for(attempt));
    }
}

#[test]
fn tripling_waits_grow_exponentially() {
    let cfg = config(SECOND, Backoff::from_integer(3), None);
    assert_eq!(SECOND, cfg.delay_for(0));
    assert_eq!(3 * SECOND, cfg.delay_for(1));
    assert_eq!(9 * SECOND, cfg.delay_for(2));
}

#[test]
fn the_per_wait_cap_clamps_every_wait() {
    let cap = 5 * SECOND / 2;
    let cfg = config(SECOND, Backoff::from_integer(2), Some(cap));
    assert_eq!(SECOND, cfg.delay_for(0));
    assert_eq!(2 * SECOND, cfg.delay_for(1));
    for attempt in 2..30 {
        assert_eq!(cap, cfg.delay_for(attempt));
    }
}

#[test]
fn a_fractional_factor_grows_by_halves() {
    let cfg = config(1_000, Backoff::from_ratio(3, 2), None);
    assert_eq!(1_000, cfg.delay_for(0));
    assert_eq!(1_500, cfg.delay_for(1));
    assert_eq!(2_250, cfg.delay_for(2));
}

#[test]
fn a_fractional_factor_truncates_to_whole_nanoseconds() {
    let cfg = config(1, Backoff::from_ratio(3, 2), None);
    // 1 * 3/2 truncates to 1: the schedule never leaves whole nanoseconds.
    assert_eq!(1, cfg.delay_for(1));
}

#[test]
fn a_shrinking_factor_shrinks_the_waits() {
    let cfg = config(8_000, Backoff::from_ratio(1, 2), None);
    assert_eq!(8_000, cfg.delay_for(0));
    assert_eq!(4_000, cfg.delay_for(1));
    assert_eq!(2_000, cfg.delay_for(2));
}

#[test]
fn growth_saturates_instead_of_overflowing() {
    let cfg = config(u64::MAX, Backoff::from_integer(2), None);
    assert_eq!(u64::MAX, cfg.delay_for(1));
    assert_eq!(u64::MAX, cfg.delay_for(2));
}

#[test]
fn the_cap_clamps_a_saturated_wait_too() {
    let cfg = config(u64::MAX, Backoff::from_integer(2), Some(7 * SECOND));
    assert_eq!(7 * SECOND, cfg.delay_for(0));
    assert_eq!(7 * SECOND, cfg.delay_for(3));
}
