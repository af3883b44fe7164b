use rpc_gateway::rate_limiter::RateLimiter;

#[test]
fn test_budget_within_one_window() {
    let mut limiter = RateLimiter::new(10, 60);
    let key = "10.0.0.1".to_string();
    // All checks fall inside one window of the first call's time.
    for expected in 1..=10 {
        let (count, allowed) = limiter.check(&key, 100 + expected);
        assert!(allowed);
        assert_eq!(count, expected);
    }
    // The eleventh check inside the same window is denied, count unchanged.
    let (count, allowed) = limiter.check(&key, 120);
    assert!(!allowed);
    assert_eq!(count, 10);
    // Still denied on a repeat inside the window.
    let (count, allowed) = limiter.check(&key, 160);
    assert!(!allowed);
    assert_eq!(count, 10);
}

#[test]
fn test_window_reset_restores_budget() {
    let mut limiter = RateLimiter::new(3, 60);
    let key = "client".to_string();
    for _ in 0..3 {
        limiter.check(&key, 1000);
    }
    let (count, allowed) = limiter.check(&key, 1000);
    assert!(!allowed);
    assert_eq!(count, 3);
    // More than the window has passed: the next check resets to 1.
    let (count, allowed) = limiter.check(&key, 1061);
    assert!(allowed);
    assert_eq!(count, 1);
}

#[test]
fn test_window_boundary_is_inclusive() {
    let mut limiter = RateLimiter::new(1, 60);
    let key = "edge".to_string();
    let (_, allowed) = limiter.check(&key, 100);
    assert!(allowed);
    // Exactly `window` seconds later is still the same window.
    let (count, allowed) = limiter.check(&key, 160);
    assert!(!allowed);
    assert_eq!(count, 1);
    // One second past the window resets.
    let (count, allowed) = limiter.check(&key, 161);
    assert!(allowed);
    assert_eq!(count, 1);
}

#[test]
fn test_keys_have_independent_budgets() {
    let mut limiter = RateLimiter::new(1, 60);
    let first = "a".to_string();
    let second = "b".to_string();
    let (_, allowed) = limiter.check(&first, 10);
    assert!(allowed);
    let (_, allowed) = limiter.check(&first, 11);
    assert!(!allowed);
    let (count, allowed) = limiter.check(&second, 11);
    assert!(allowed);
    assert_eq!(count, 1);
}

#[test]
fn test_increment_preserves_window_start() {
    let mut limiter = RateLimiter::new(5, 60);
    let key = "k".to_string();
    let (_, allowed) = limiter.check(&key, 100);
    assert!(allowed);
    let (count, allowed) = limiter.check(&key, 159);
    assert!(allowed);
    assert_eq!(count, 2);
    // Were the window start moved to 159 by the increment, 161 would
    // still fall inside it; counted from the original start it does not.
    let (count, allowed) = limiter.check(&key, 161);
    assert!(allowed);
    assert_eq!(count, 1);
}

#[test]
fn test_stale_clock_counts_as_same_window() {
    let mut limiter = RateLimiter::new(2, 60);
    let key = "clock".to_string();
    let (_, allowed) = limiter.check(&key, 100);
    assert!(allowed);
    // A reading older than the window start saturates to zero elapsed.
    let (count, allowed) = limiter.check(&key, 40);
    assert!(allowed);
    assert_eq!(count, 2);
}
