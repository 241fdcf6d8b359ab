use ultra_aggr::book::{calculate_slippage, Level2Book};
use ultra_aggr::errors::AggrError;
use ultra_aggr::quant::PoolParams;
use ultra_aggr::routes::{LimitReq, Route, RoutePlan, RouteScore};
use ultra_aggr::selector::{MarketSnapshot, RouteSelector};

fn pool_params() -> PoolParams {
    PoolParams {
        tick_size: 1_000_000,      // 0.001
        lot_size: 100_000_000,     // 0.1
        min_size: 100_000_000,     // 0.1
    }
}

fn bid_request() -> LimitReq {
    LimitReq {
        pool: "SUI_USDC".to_string(),
        price: 1_000_000_000,      // 1.000
        quantity: 10_000_000_000,  // 10
        is_bid: true,
        client_order_id: "42".to_string(),
        pay_with_deep: false,
        expiration_ms: None,
    }
}

fn quoted_book() -> Level2Book {
    Level2Book {
        bid_prices: vec![999_000_000],
        bid_quantities: vec![5_000_000_000],
        ask_prices: vec![1_001_000_000, 1_002_000_000], // 1.001, 1.002
        ask_quantities: vec![5_000_000_000, 6_000_000_000], // 5, 6
    }
}

#[test]
fn slippage_walks_opposing_side() {
    // Bid 1.000 x 10 against asks [(1.001, 5), (1.002, 6)]:
    // fills 5 @ 1.001 and 5 @ 1.002, avg 1.0015,
    // slippage (1.0015 - 1.000) * 10 = 0.015.
    let book = quoted_book();
    let slip = calculate_slippage(
        1_000_000_000,
        10_000_000_000,
        true,
        &book.ask_prices,
        &book.ask_quantities,
        &pool_params(),
    );
    assert_eq!(slip, 15_000_000); // 0.015 in quote units
}

#[test]
fn slippage_empty_book_falls_back_to_one_percent() {
    let empty: Vec<u64> = Vec::new();
    let slip = calculate_slippage(
        1_000_000_000,
        10_000_000_000,
        true,
        &empty,
        &empty,
        &pool_params(),
    );
    // 1% of notional 10.0 = 0.1 in quote units.
    assert_eq!(slip, 100_000_000);
}

#[test]
fn slippage_remainder_clears_one_tick_beyond() {
    // Bid for 12 against asks [(1.001, 5), (1.002, 6)]: 1 unfilled unit
    // assumed at 1.002 + tick = 1.003.
    // cost = 5*1.001 + 6*1.002 + 1*1.003 = 12.02, avg = 1.00166666...
    // slippage = (avg - 1.000) * 12 = 0.02 (exactly, since cost is exact).
    let book = quoted_book();
    let slip = calculate_slippage(
        1_000_000_000,
        12_000_000_000,
        true,
        &book.ask_prices,
        &book.ask_quantities,
        &pool_params(),
    );
    // avg = 12.02 / 12 = 1.001666666 (floored); slippage floored accordingly.
    // total cost units: 5e9*1.001 + 6e9*1.002 + 1e9*1.003 = 12_020_000_000 units of quote*1
    // avg units = 12_020_000_000 / 12 = 1_001_666_666 (floor)
    // slippage = 1_666_666 * 12e9 / 1e9 = 19_999_992
    assert_eq!(slip, 19_999_992);
}

#[test]
fn score_limit_order_reproduces_quoted_scenario() {
    let selector = RouteSelector::new(100, 400);
    let market = MarketSnapshot {
        pool_params: pool_params(),
        mid_price: 1_000_000_000, // at the requested price: taker
        book: quoted_book(),
        taker_fee: 1_000_000, // 0.001
        maker_fee: 500_000,   // 0.0005
        gas_price: 1000,
    };
    let plan = selector.score_limit_order(&bid_request(), &market);

    assert_eq!(plan.score.l2_price, 1_000_000_000);
    // slippage 0.015 plus taker fee 10 * 1.000 * 0.001 = 0.010.
    assert_eq!(plan.score.slippage, 15_000_000 + 10_000_000);
    // gas: 1e7 gas units at 1000 per unit is 10 of the native token,
    // converted at l2 1.000 into 10 quote units.
    assert_eq!(plan.score.gas_cost, 10_000_000_000);
    // latency penalty: (400 - 100) * notional 10.0 / 1e6 = 0.003.
    assert_eq!(plan.score.latency_penalty, 3_000_000);
    // risk: notional / 100_000 = 0.0001.
    assert_eq!(plan.score.risk_factor, 100_000);
    assert_eq!(
        plan.score.total_cost,
        1_000_000_000u128 + 25_000_000 + 10_000_000_000 + 3_000_000 + 100_000
    );
    assert!(plan.uses_shared_objects);
    assert_eq!(plan.expected_latency_ms, 400);
    assert_eq!(plan.estimated_gas, 10_000_000);
    match plan.route {
        Route::DeepBookSingle(q) => assert_eq!(q.pool, "SUI_USDC"),
        _ => panic!("expected a single-venue route"),
    }
}

#[test]
fn maker_fee_applies_when_limit_does_not_cross() {
    let selector = RouteSelector::new(100, 400);
    let market = MarketSnapshot {
        pool_params: pool_params(),
        mid_price: 1_000_500_000, // above the bid: maker
        book: quoted_book(),
        taker_fee: 1_000_000,
        maker_fee: 500_000,
        gas_price: 0,
    };
    let plan = selector.score_limit_order(&bid_request(), &market);
    // l2 is the better of requested and mid: the mid here.
    assert_eq!(plan.score.l2_price, 1_000_500_000);
    // fee = 10 * 1.000 * 0.0005 = 0.005 on top of 0.015 slippage.
    assert_eq!(plan.score.slippage, 15_000_000 + 5_000_000);
    assert_eq!(plan.score.gas_cost, 0);
}

fn plan_with_cost(cost_price: u64) -> RoutePlan {
    let score = RouteScore::new(cost_price, 0, 0, 0, 0);
    RoutePlan {
        route: Route::FlashLoanArb {},
        score,
        expected_latency_ms: 0,
        uses_shared_objects: false,
        estimated_gas: 0,
    }
}

#[test]
fn select_route_empty_candidates_is_no_routes() {
    let selector = RouteSelector::new(100, 400);
    let r = selector.select_route(Vec::new());
    match r {
        Err(AggrError::NoRoutes) => {},
        _ => panic!("expected NoRoutes"),
    }
}

#[test]
fn select_route_orders_by_total_cost() {
    let selector = RouteSelector::new(100, 400);
    let sel = selector
        .select_route(vec![plan_with_cost(30), plan_with_cost(10), plan_with_cost(20)])
        .unwrap();
    assert_eq!(sel.plan.score.total_cost, 10);
    assert_eq!(sel.alternatives.len(), 2);
    assert_eq!(sel.alternatives[0].score.total_cost, 20);
    assert_eq!(sel.alternatives[1].score.total_cost, 30);
    assert_eq!(sel.best_plan().score.total_cost, 10);
}

#[test]
fn select_route_is_stable_on_ties() {
    let selector = RouteSelector::new(100, 400);
    let mut a = plan_with_cost(10);
    a.estimated_gas = 1; // marker for the earlier candidate
    let mut b = plan_with_cost(10);
    b.estimated_gas = 2;
    let sel = selector.select_route(vec![a, b]).unwrap();
    assert_eq!(sel.plan.estimated_gas, 1);
    assert_eq!(sel.alternatives[0].estimated_gas, 2);
}

#[test]
fn record_latency_updates_estimate_after_ten_samples() {
    let mut selector = RouteSelector::new(100, 400);
    for _ in 0..9 {
        selector.record_latency(500, true);
    }
    assert_eq!(selector.get_latency_estimates(), (100, 400));
    selector.record_latency(500, true);
    // Ten samples, average 500: estimate moves by 1/10 toward it:
    // (1*500 + 9*400) / 10 = 410.
    assert_eq!(selector.get_latency_estimates(), (100, 410));
    // Owned path untouched.
    let stats = selector.get_latency_stats();
    assert_eq!(stats.shared_samples, 10);
    assert_eq!(stats.owned_samples, 0);
    assert_eq!(stats.shared_avg, Some(500));
    assert_eq!(stats.owned_avg, None);
    assert_eq!(stats.base_latency_ms, 100);
    assert_eq!(stats.shared_latency_ms, 410);
}

#[test]
fn update_latency_estimates_overrides_both() {
    let mut selector = RouteSelector::new(100, 400);
    selector.update_latency_estimates(120, 350);
    assert_eq!(selector.get_latency_estimates(), (120, 350));
}
