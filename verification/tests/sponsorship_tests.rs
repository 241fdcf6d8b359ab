use ultra_aggr::sponsorship::{
    AbuseConfig, AbuseMetrics, Budget, SponsorshipManager, SponsorshipRequest,
};

fn manager_with_coins(coins: Vec<&str>) -> SponsorshipManager {
    let mut m = SponsorshipManager::new(
        "ab".repeat(32),
        "0xsponsor".to_string(),
        1000,
        AbuseConfig::default(),
    );
    m.update_gas_coins(coins.into_iter().map(|c| c.to_string()).collect());
    m
}

fn request(user: &str, gas: u64, now: u64) -> SponsorshipRequest {
    SponsorshipRequest {
        user_address: user.to_string(),
        route_plan_id: "plan".to_string(),
        estimated_gas: gas,
        created_at_ms: now,
    }
}

#[test]
fn budget_window_scenario() {
    // total 1000, per-tx 100, window 60 s.
    let mut b = Budget::new(1000, 100, Some(60_000), 0);
    assert!(b.can_spend(60, 1));
    b.spend(60);
    assert!(b.can_spend(60, 2));
    b.spend(60);
    assert_eq!(b.spent, 120);
    assert!(b.can_spend(50, 3));
    b.spend(50);
    assert_eq!(b.spent, 170);
    // 900 exceeds the per-transaction limit of 100.
    assert!(!b.can_spend(900, 4));
    assert_eq!(b.spent, 170);
    // After the 60 s window, an admission observes spent = 0.
    assert!(b.can_spend(10, 60_000));
    assert_eq!(b.spent, 0);
}

#[test]
fn budget_total_is_enforced() {
    let mut b = Budget::new(100, 100, None, 0);
    assert!(b.can_spend(100, 1));
    b.spend(100);
    assert!(!b.can_spend(1, 2));
    assert_eq!(b.remaining(), 0);
}

#[test]
fn budget_remaining_saturates() {
    let mut b = Budget::new(100, 100, None, 0);
    b.spend(60);
    assert_eq!(b.remaining(), 40);
    b.spend(60);
    assert_eq!(b.remaining(), 0);
}

#[test]
fn abuse_metrics_window_resets() {
    let mut m = AbuseMetrics::new(1000, 0);
    m.record_tx(10, 1);
    m.record_tx(10, 2);
    assert_eq!(m.tx_count, 2);
    assert!(m.check_limits(2, 100, 3));
    assert!(!m.check_limits(1, 100, 3));
    assert!(!m.check_limits(2, 19, 3));
    // Window expired: limits pass again and the next record resets.
    assert!(m.check_limits(1, 1, 1001));
    m.record_tx(5, 1001);
    assert_eq!(m.tx_count, 1);
    assert_eq!(m.gas_spent, 5);
}

#[test]
fn can_sponsor_without_gas_coins_is_false() {
    let mut m = SponsorshipManager::new(
        "ab".repeat(32),
        "0xsponsor".to_string(),
        1000,
        AbuseConfig::default(),
    );
    assert!(!m.can_sponsor(&request("0xuser", 10, 0), 0));
}

#[test]
fn can_sponsor_with_coins_and_no_budget_is_true() {
    let mut m = manager_with_coins(vec!["0xcoin1"]);
    assert!(m.can_sponsor(&request("0xuser", 10, 0), 0));
}

#[test]
fn can_sponsor_respects_user_budget() {
    let mut m = manager_with_coins(vec!["0xcoin1"]);
    m.set_user_budget("0xuser".to_string(), 100, 50, None, 0);
    assert!(m.can_sponsor(&request("0xuser", 50, 1), 1));
    // Over the per-transaction limit.
    assert!(!m.can_sponsor(&request("0xuser", 60, 2), 2));
    m.record_spending("0xuser", 50, 3);
    m.record_spending("0xuser", 50, 4);
    // Budget total exhausted.
    assert!(!m.can_sponsor(&request("0xuser", 10, 5), 5));
    assert_eq!(m.get_user_budget_remaining("0xuser"), Some(0));
    // Another user is unaffected.
    assert!(m.can_sponsor(&request("0xother", 10, 5), 5));
    assert_eq!(m.get_user_budget_remaining("0xother"), None);
}

#[test]
fn can_sponsor_respects_abuse_limits() {
    let mut m = manager_with_coins(vec!["0xcoin1"]);
    m.abuse_config = AbuseConfig {
        max_tx_per_window: 2,
        max_gas_per_window: 1_000_000,
        window_duration_ms: 60_000,
    };
    m.record_spending("0xuser", 1, 0);
    m.record_spending("0xuser", 1, 1);
    assert!(m.can_sponsor(&request("0xuser", 1, 2), 2));
    m.record_spending("0xuser", 1, 3);
    // Three transactions exceed the limit of two.
    assert!(!m.can_sponsor(&request("0xuser", 1, 4), 4));
    // After the abuse window the user is admitted again.
    assert!(m.can_sponsor(&request("0xuser", 1, 60_001), 60_001));
}

#[test]
fn plan_sponsored_transaction_uses_first_coin() {
    let m = manager_with_coins(vec!["0xcoin1", "0xcoin2"]);
    let refs = vec!["0xcoin1".to_string(), "0xcoin2".to_string()];
    let plan = m
        .plan_sponsored_transaction("0xuser".to_string(), &refs, 5_000_000)
        .unwrap();
    assert_eq!(plan.sender, "0xuser");
    assert_eq!(plan.gas_coin, "0xcoin1");
    assert_eq!(plan.gas_budget, 5_000_000);
    assert_eq!(plan.gas_price, 1000);

    let empty: Vec<String> = Vec::new();
    assert!(m
        .plan_sponsored_transaction("0xuser".to_string(), &empty, 5_000_000)
        .is_err());
}

#[test]
fn sponsor_signature_matches_direct_signing() {
    let m = manager_with_coins(vec!["0xcoin"]);
    let tx = b"sponsored tx bytes";
    let sig = m.sign_sponsored_transaction(tx).unwrap();
    let (direct, _) =
        ultra_aggr::signing::sign_tx_bcs_ed25519_to_serialized_signature(tx, &"ab".repeat(32))
            .unwrap();
    assert_eq!(sig, direct);

    let bad = SponsorshipManager::new(
        "nothex".to_string(),
        "0xs".to_string(),
        1,
        AbuseConfig::default(),
    );
    assert!(bad.sign_sponsored_transaction(tx).is_err());
}

#[test]
fn sponsored_signing_set_is_user_then_sponsor() {
    let m = manager_with_coins(vec!["0xcoin"]);
    let engine = ultra_aggr::execution::ExecutionEngine::new(
        "0xuser".to_string(),
        "cd".repeat(32),
        false,
    );
    let tx = b"tx to co-sign";
    let sigs = engine.sign_sponsored_transaction(tx, &m).unwrap();
    assert_eq!(sigs.len(), 2);
    let (user, _) =
        ultra_aggr::signing::sign_tx_bcs_ed25519_to_serialized_signature(tx, &"cd".repeat(32))
            .unwrap();
    let (sponsor, _) =
        ultra_aggr::signing::sign_tx_bcs_ed25519_to_serialized_signature(tx, &"ab".repeat(32))
            .unwrap();
    assert_eq!(sigs[0], user);
    assert_eq!(sigs[1], sponsor);
}

#[test]
fn gas_coin_ids_returns_registered_coins() {
    let m = manager_with_coins(vec!["0xa", "0xb"]);
    let ids = m.gas_coin_ids();
    assert_eq!(ids, vec!["0xa".to_string(), "0xb".to_string()]);
    assert_eq!(m.sponsor_address(), "0xsponsor");
}
