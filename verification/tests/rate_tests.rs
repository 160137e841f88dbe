use orca::rate::{LimitMethod, RateBudget};

#[test]
fn steady_spreads_remaining_over_window() {
    // remaining 4, reset 8 s away: an even spread waits 2 s per request.
    let budget = RateBudget { used: 0, remaining: Some(4), reset_at: 8_000 };
    assert_eq!(budget.throttle_delay(0, LimitMethod::Steady), 2_000);
}

#[test]
fn burst_waits_only_when_exhausted() {
    let exhausted = RateBudget { used: 0, remaining: Some(0), reset_at: 5_000 };
    assert_eq!(exhausted.throttle_delay(0, LimitMethod::Burst), 5_000);
    let one_left = RateBudget { used: 0, remaining: Some(1), reset_at: 5_000 };
    assert_eq!(one_left.throttle_delay(0, LimitMethod::Burst), 0);
}

#[test]
fn no_observation_means_no_delay() {
    let budget = RateBudget { used: 0, remaining: None, reset_at: 10_000 };
    assert_eq!(budget.throttle_delay(0, LimitMethod::Steady), 0);
    assert_eq!(budget.throttle_delay(0, LimitMethod::Burst), 0);
}

#[test]
fn stale_reset_means_no_delay() {
    // remaining 0 but the horizon has passed: no sleeping on stale data.
    let budget = RateBudget { used: 0, remaining: Some(0), reset_at: 1_000 };
    assert_eq!(budget.throttle_delay(2_000, LimitMethod::Burst), 0);
    assert_eq!(budget.throttle_delay(2_000, LimitMethod::Steady), 0);
}

#[test]
fn steady_divides_by_at_least_one() {
    let budget = RateBudget { used: 0, remaining: Some(0), reset_at: 6_000 };
    assert_eq!(budget.throttle_delay(0, LimitMethod::Steady), 6_000);
}

#[test]
fn observe_reads_the_three_headers() {
    let mut budget = RateBudget::new();
    budget.observe(
        Some(&b"23".to_vec()),
        Some(&b"577".to_vec()),
        Some(&b"120".to_vec()),
        1_000,
    );
    assert_eq!(budget.used, 23);
    assert_eq!(budget.remaining, Some(577));
    assert_eq!(budget.reset_at, 1_000 + 120_000);
}

#[test]
fn observe_rounds_decimal_headers() {
    let mut budget = RateBudget::new();
    budget.observe(
        Some(&b"23.4".to_vec()),
        Some(&b"576.5".to_vec()),
        Some(&b"599.0".to_vec()),
        0,
    );
    assert_eq!(budget.used, 23);
    assert_eq!(budget.remaining, Some(577));
    assert_eq!(budget.reset_at, 599_000);
}

#[test]
fn observe_tolerates_absent_headers() {
    let mut budget = RateBudget { used: 7, remaining: Some(3), reset_at: 9_000 };
    budget.observe(None, None, None, 100);
    assert_eq!(budget, RateBudget { used: 7, remaining: Some(3), reset_at: 9_000 });
}

#[test]
fn observe_ignores_unreadable_headers() {
    let mut budget = RateBudget { used: 7, remaining: Some(3), reset_at: 9_000 };
    budget.observe(
        Some(&b"soon".to_vec()),
        Some(&b"".to_vec()),
        Some(&b"1.2.3".to_vec()),
        100,
    );
    assert_eq!(budget, RateBudget { used: 7, remaining: Some(3), reset_at: 9_000 });
}
