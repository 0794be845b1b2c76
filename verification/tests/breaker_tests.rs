use api_switch::circuit_breaker::{CircuitBreakerManager, FAILURE_THRESHOLD, RESET_NANOS};

#[test]
fn new_manager_lets_every_channel_through() {
    let m = CircuitBreakerManager::new();
    assert!(m.is_available("a"));
    assert!(m.is_available_at("b", 0));
    assert_eq!(m.failure_count("a"), 0);
}

#[test]
fn four_failures_keep_channel_available() {
    let mut m = CircuitBreakerManager::new();
    for t in 0..4u128 {
        m.record_failure_at("c", t);
    }
    assert_eq!(m.failure_count("c"), 4);
    assert!(m.is_available_at("c", 4));
}

#[test]
fn fifth_failure_opens_breaker_until_reset() {
    let mut m = CircuitBreakerManager::new();
    for t in 0..5u128 {
        m.record_failure_at("c", 100 + t);
    }
    assert_eq!(m.failure_count("c"), FAILURE_THRESHOLD);
    let last = 104;
    assert!(!m.is_available_at("c", last));
    assert!(!m.is_available_at("c", last + RESET_NANOS));
    assert!(m.is_available_at("c", last + RESET_NANOS + 1));
}

#[test]
fn time_before_last_failure_counts_as_no_time_elapsed() {
    let mut m = CircuitBreakerManager::new();
    for _ in 0..5 {
        m.record_failure_at("c", 1_000);
    }
    assert!(!m.is_available_at("c", 0));
}

#[test]
fn failure_after_half_open_closes_window_again() {
    let mut m = CircuitBreakerManager::new();
    for _ in 0..5 {
        m.record_failure_at("c", 0);
    }
    let later = RESET_NANOS + 10;
    assert!(m.is_available_at("c", later));
    m.record_failure_at("c", later);
    assert_eq!(m.failure_count("c"), 6);
    assert!(!m.is_available_at("c", later + 1));
}

#[test]
fn success_closes_breaker_and_clears_count() {
    let mut m = CircuitBreakerManager::new();
    for _ in 0..7 {
        m.record_failure_at("c", 5);
    }
    assert!(!m.is_available_at("c", 6));
    m.record_success("c");
    assert_eq!(m.failure_count("c"), 0);
    assert!(m.is_available_at("c", 6));
    for _ in 0..4 {
        m.record_failure_at("c", 7);
    }
    assert!(m.is_available_at("c", 7));
}

#[test]
fn success_of_unknown_channel_changes_nothing() {
    let mut m = CircuitBreakerManager::new();
    m.record_success("never");
    assert_eq!(m.failure_count("never"), 0);
    assert!(m.is_available_at("never", 0));
}

#[test]
fn channels_are_independent() {
    let mut m = CircuitBreakerManager::new();
    for _ in 0..5 {
        m.record_failure_at("bad", 1);
    }
    m.record_failure_at("good", 1);
    assert!(!m.is_available_at("bad", 2));
    assert!(m.is_available_at("good", 2));
    assert_eq!(m.failure_count("good"), 1);
    m.record_success("good");
    assert!(!m.is_available_at("bad", 2));
}

#[test]
fn failure_now_is_counted() {
    let mut m = CircuitBreakerManager::new();
    for _ in 0..5 {
        m.record_failure("x");
    }
    assert_eq!(m.failure_count("x"), 5);
    assert!(!m.is_available("x"));
}
