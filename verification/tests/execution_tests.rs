use blake2::digest::Digest;
use ultra_aggr::errors::AggrError;
use ultra_aggr::execution::{BackoffPolicy, ExecutionEngine};

fn engine() -> ExecutionEngine {
    ExecutionEngine::new("0xuser".to_string(), "ab".repeat(32), false)
}

#[test]
fn compute_digest_is_truncated_blake2b_hex() {
    let e = engine();
    let tx = b"canonical transaction bytes";
    let digest = e.compute_digest(tx);
    let mut h = blake2::Blake2b512::new();
    h.update(tx);
    let expected = hex::encode(&h.finalize()[..32]);
    assert_eq!(digest, expected);
    assert_eq!(digest.len(), 64);
    // A changed payload yields a different digest.
    assert_ne!(digest, e.compute_digest(b"other bytes"));
}

#[test]
fn duplicate_submission_is_rejected() {
    let mut e = engine();
    let d = e.compute_digest(b"tx-1");

    e.begin_execution();
    assert!(e.admit_digest(&d).is_ok());
    e.record_success(d.clone(), 120, None);

    // The same transaction submitted twice: the second admission fails.
    e.begin_execution();
    assert_eq!(e.admit_digest(&d), Err(AggrError::DuplicateSubmission));

    // A different digest still passes.
    e.begin_execution();
    let d2 = e.compute_digest(b"tx-2");
    assert!(e.admit_digest(&d2).is_ok());
    e.record_failure();
}

#[test]
fn counters_stay_consistent() {
    let mut e = engine();
    for i in 0..5u32 {
        e.begin_execution();
        let d = e.compute_digest(format!("tx-{i}").as_bytes());
        assert!(e.admit_digest(&d).is_ok());
        if i < 3 {
            e.record_success(d, 100 + i as u64, Some(200));
        } else {
            e.record_failure();
        }
    }
    let s = e.get_stats();
    assert_eq!(s.total_executions, 5);
    assert_eq!(s.successful_executions, 3);
    assert_eq!(s.failed_executions, 2);
    assert!(s.successful_executions <= s.total_executions);
    assert!(s.successful_executions + s.failed_executions <= s.total_executions);
    // avg over successes: (100 + 101 + 102) / 3 = 101.
    assert_eq!(s.avg_effects_time_ms, Some(101));
    assert_eq!(s.avg_checkpoint_time_ms, Some(200));
    assert_eq!(s.success_rate_ppm, 600_000);
}

#[test]
fn stats_on_fresh_engine() {
    let e = engine();
    let s = e.get_stats();
    assert_eq!(s.total_executions, 0);
    assert_eq!(s.avg_effects_time_ms, None);
    assert_eq!(s.avg_checkpoint_time_ms, None);
    assert_eq!(s.success_rate_ppm, 0);
}

#[test]
fn backoff_schedule_doubles_to_cap_and_exhausts() {
    let mut b = BackoffPolicy::new();
    let mut delays = Vec::new();
    while let Some(d) = b.next_delay() {
        delays.push(d);
    }
    // 100, 200, ..., capped at 5000, total budget 30 s.
    assert_eq!(&delays[..7], &[100, 200, 400, 800, 1600, 3200, 5000]);
    assert!(delays[7..].iter().all(|&d| d == 5000));
    let total: u64 = delays.iter().sum();
    assert!(total >= 30_000);
    assert!(total - delays.last().unwrap() < 30_000);
    // Once exhausted it stays exhausted.
    assert_eq!(b.next_delay(), None);
}
