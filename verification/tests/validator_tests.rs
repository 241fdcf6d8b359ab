use ultra_aggr::validator::{ValidatorSelector, ValidatorStats};

#[test]
fn ewma_first_observation_replaces_prior() {
    let mut s = ValidatorStats::new(0);
    assert_eq!(s.effects_ewma_ms, 500);
    assert_eq!(s.observations, 0);
    s.update_ewma(120, 1, 5, 10);
    assert_eq!(s.effects_ewma_ms, 120);
    assert_eq!(s.observations, 1);
    assert_eq!(s.last_update_ms, 10);
}

#[test]
fn ewma_follows_closed_form_for_alpha_one_fifth() {
    // alpha = 0.2 over [500, 500, 500, 1000]:
    // closed form 0.8^3*500 + 0.2*(0.8^2*500 + 0.8*500 + 1000) = 600.
    let mut s = ValidatorStats::new(0);
    for (i, x) in [500u64, 500, 500, 1000].iter().enumerate() {
        s.update_ewma(*x, 1, 5, i as u64);
    }
    assert_eq!(s.effects_ewma_ms, 600);
}

#[test]
fn select_best_prefers_lowest_ewma_among_eligible() {
    let mut sel = ValidatorSelector::new_default();
    sel.register("a".to_string(), 0);
    sel.register("b".to_string(), 0);
    // Five observations each so both are eligible.
    for (i, x) in [500u64, 500, 500, 500, 1000].iter().enumerate() {
        sel.record_effects_time("a", *x, i as u64);
    }
    for i in 0..5u64 {
        sel.record_effects_time("b", 200, i);
    }
    // a: EWMA 600; b: EWMA 200.
    assert_eq!(sel.select_best(10), Some("b".to_string()));
}

#[test]
fn select_best_falls_back_to_healthy_without_eligible() {
    let mut sel = ValidatorSelector::new_default();
    sel.register("a".to_string(), 0);
    sel.register("b".to_string(), 0);
    // Too few observations for eligibility; fallback picks min EWMA.
    sel.record_effects_time("a", 900, 1);
    sel.record_effects_time("b", 100, 1);
    assert_eq!(sel.select_best(2), Some("b".to_string()));
}

#[test]
fn select_best_ignores_stale_endpoints() {
    let mut sel = ValidatorSelector::new(1, 5, 300, 1);
    sel.register("old".to_string(), 0);
    sel.register("fresh".to_string(), 0);
    sel.record_effects_time("old", 10, 0);
    let later = 400_000; // past the 300 s staleness bound for "old"
    sel.record_effects_time("fresh", 800, later);
    assert_eq!(sel.select_best(later + 1), Some("fresh".to_string()));
}

#[test]
fn unhealthy_endpoints_are_excluded_until_marked_healthy() {
    let mut sel = ValidatorSelector::new_default();
    sel.register("a".to_string(), 0);
    sel.mark_unhealthy("a");
    assert_eq!(sel.select_best(1), None);
    sel.mark_healthy("a");
    assert_eq!(sel.select_best(1), Some("a".to_string()));
}

#[test]
fn endpoint_for_submission_falls_back_to_default() {
    let mut sel = ValidatorSelector::new_default();
    sel.register("a".to_string(), 0);
    sel.mark_unhealthy("a");
    // No healthy endpoint: the startup-configured default is used.
    assert_eq!(
        sel.endpoint_for_submission(1, "https://default.example"),
        "https://default.example".to_string()
    );
    sel.mark_healthy("a");
    assert_eq!(sel.endpoint_for_submission(1, "https://default.example"), "a".to_string());
}

#[test]
fn stats_reports_all_endpoints() {
    let mut sel = ValidatorSelector::new_default();
    sel.register("a".to_string(), 0);
    sel.register("b".to_string(), 0);
    sel.record_effects_time("a", 300, 1);
    sel.mark_unhealthy("b");
    let stats = sel.stats();
    assert_eq!(stats.len(), 2);
    assert_eq!(stats[0].0, "a");
    assert_eq!(stats[0].1, (300, 1, true));
    assert_eq!(stats[1].0, "b");
    assert_eq!(stats[1].1, (500, 0, false));
}

#[test]
fn register_is_idempotent() {
    let mut sel = ValidatorSelector::new_default();
    sel.register("a".to_string(), 0);
    sel.record_effects_time("a", 100, 1);
    sel.register("a".to_string(), 2);
    let stats = sel.stats();
    assert_eq!(stats.len(), 1);
    assert_eq!(stats[0].1 .1, 1); // observation count kept
}
