use ultra_aggr::control::{AdmissionControl, Breaker, CircuitBreakers, RateLimiter};

#[test]
fn rate_limiter_burst_admits_up_to_rate() {
    // A burst of 15 simultaneous acquires at rate 10: exactly 10 admit.
    let mut rl = RateLimiter::new(10);
    let mut admitted = 0;
    for _ in 0..15 {
        if rl.try_acquire(0) {
            admitted += 1;
        }
    }
    assert_eq!(admitted, 10);
}

#[test]
fn rate_limiter_admits_remainder_after_window() {
    let mut rl = RateLimiter::new(10);
    for _ in 0..15 {
        let _ = rl.try_acquire(0);
    }
    // Within the same second nothing more is admitted.
    assert!(!rl.try_acquire(500));
    // Once the first second has fully passed, capacity returns.
    let mut admitted_later = 0;
    for _ in 0..10 {
        if rl.try_acquire(1001) {
            admitted_later += 1;
        }
    }
    assert_eq!(admitted_later, 10);
    // The trailing window ending at 1001 now holds 10 admissions.
    assert!(!rl.try_acquire(1001));
}

#[test]
fn rate_limiter_no_window_exceeds_rate() {
    let mut rl = RateLimiter::new(3);
    let mut admissions: Vec<u64> = Vec::new();
    let times = [0u64, 0, 0, 0, 100, 400, 900, 1000, 1001, 1050, 1500, 2500];
    for t in times {
        if rl.try_acquire(t) {
            admissions.push(t);
        }
    }
    for &t in &admissions {
        let in_window = admissions
            .iter()
            .filter(|&&a| a <= t && t - a <= 1000)
            .count();
        assert!(in_window <= 3, "window ending at {t} holds {in_window}");
    }
}

#[test]
fn admission_control_stacks_rate_and_concurrency() {
    let mut ac = AdmissionControl::new(1, Some(10));
    assert!(ac.try_admit(0));
    // Concurrency limit of one: the second admission is refused.
    assert!(!ac.try_admit(1));
    ac.release();
    assert!(ac.try_admit(2));
}

#[test]
fn admission_control_defaults_rate_to_200() {
    let mut ac = AdmissionControl::new(1000, None);
    let mut admitted = 0;
    for _ in 0..250 {
        if ac.try_admit(0) {
            admitted += 1;
        }
    }
    assert_eq!(admitted, 200);
}

#[test]
fn breaker_opens_at_half_failures_and_closes_after_cooldown() {
    // min samples 20, threshold one half, cooldown 5 s.
    let mut b = Breaker::new();
    let t0 = 10_000u64;
    for i in 0..10 {
        b.record(true, t0 + i);
    }
    assert!(!b.is_open(t0 + 10));
    for i in 10..19 {
        b.record(false, t0 + i);
    }
    // 19 samples: not enough yet.
    assert!(!b.is_open(t0 + 19));
    b.record(false, t0 + 19);
    // 20 samples, 10 failures: exactly at the threshold, so it opens.
    assert!(b.is_open(t0 + 20));
    assert!(b.is_open(t0 + 5018));
    // Cooldown of 5 s from the trip at t0+19.
    assert!(!b.is_open(t0 + 19 + 5000));
    assert!(!b.is_open(t0 + 19 + 5001));
}

#[test]
fn breaker_stays_closed_under_threshold() {
    let mut b = Breaker::new();
    for i in 0..30 {
        b.record(i % 3 == 0, i as u64); // one third failures
    }
    assert!(!b.is_open(100));
}

#[test]
fn circuit_breakers_track_classes_independently() {
    let mut cb = CircuitBreakers::new();
    assert!(!cb.is_open("venue-a", 0));
    for i in 0..20 {
        cb.record_failure("venue-a", i);
        cb.record_success("venue-b", i);
    }
    assert!(cb.is_open("venue-a", 20));
    assert!(!cb.is_open("venue-b", 20));
    // Unknown classes start closed.
    assert!(!cb.is_open("venue-c", 20));
}
