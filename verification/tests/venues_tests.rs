use core::cmp::Ordering;
use ultra_aggr::errors::AggrError;
use ultra_aggr::quant::PoolParams;
use ultra_aggr::routes::{RoutePlan, RouteScore};
use ultra_aggr::routes::{LimitReq, Route};
use ultra_aggr::venues::{
    compile_route_commands, parse_u64, prepare_limit_order, CompilePlan, LimitOrder, Side,
    EXPIRATION_NEVER_MS,
};

fn params() -> PoolParams {
    PoolParams {
        tick_size: 1_000_000,
        lot_size: 100_000_000,
        min_size: 100_000_000,
    }
}

fn req() -> LimitReq {
    LimitReq {
        pool: "SUI_USDC".to_string(),
        price: 1_000_500_000,
        quantity: 1_050_000_000,
        is_bid: false,
        client_order_id: "77".to_string(),
        pay_with_deep: true,
        expiration_ms: Some(123_456),
    }
}

#[test]
fn parse_u64_accepts_decimals_and_plus_sign() {
    assert_eq!(parse_u64("42"), Ok(42));
    assert_eq!(parse_u64("+7"), Ok(7));
    assert_eq!(parse_u64("0"), Ok(0));
    assert_eq!(parse_u64("18446744073709551615"), Ok(u64::MAX));
}

#[test]
fn parse_u64_rejects_bad_input() {
    assert_eq!(parse_u64(""), Err(AggrError::BuildTx));
    assert_eq!(parse_u64("+"), Err(AggrError::BuildTx));
    assert_eq!(parse_u64("12a"), Err(AggrError::BuildTx));
    assert_eq!(parse_u64("-1"), Err(AggrError::BuildTx));
    assert_eq!(parse_u64("18446744073709551616"), Err(AggrError::BuildTx));
}

#[test]
fn prepare_limit_order_quantizes_and_parses() {
    let c = prepare_limit_order(&req(), &params()).unwrap();
    assert_eq!(c.pool, "SUI_USDC");
    assert_eq!(c.client_order_id, 77);
    assert_eq!(c.price, 1_000_000_000); // rounded down to the tick
    assert_eq!(c.quantity, 1_000_000_000); // rounded down to the lot
    assert!(!c.is_bid);
    assert_eq!(c.expiration_ms, 123_456);
    assert!(c.pay_with_deep);
}

#[test]
fn prepare_limit_order_defaults_expiration_to_never() {
    let mut r = req();
    r.expiration_ms = None;
    let c = prepare_limit_order(&r, &params()).unwrap();
    assert_eq!(c.expiration_ms, EXPIRATION_NEVER_MS);
}

#[test]
fn prepare_limit_order_rejects_bad_order_id() {
    let mut r = req();
    r.client_order_id = "not-a-number".to_string();
    assert_eq!(prepare_limit_order(&r, &params()), Err(AggrError::BuildTx));
}

#[test]
fn compile_single_route() {
    let plan = compile_route_commands(&Route::DeepBookSingle(req()), &params(), None).unwrap();
    match plan {
        CompilePlan::PlaceOrder(c) => assert_eq!(c.client_order_id, 77),
        _ => panic!("expected a placement"),
    }
}

#[test]
fn compile_multi_venue_split_requires_an_order() {
    let with = compile_route_commands(
        &Route::MultiVenueSplit { deepbook: Some(req()) },
        &params(),
        None,
    )
    .unwrap();
    assert!(matches!(with, CompilePlan::PlaceOrder(_)));

    let without =
        compile_route_commands(&Route::MultiVenueSplit { deepbook: None }, &params(), None);
    assert_eq!(without, Err(AggrError::BuildTx));
}

#[test]
fn compile_cancel_replace_needs_prior_order_id() {
    let route = Route::CancelReplace {
        cancel_digest: "abc".to_string(),
        replace: req(),
    };
    assert_eq!(
        compile_route_commands(&route, &params(), None),
        Err(AggrError::BuildTx)
    );
    let plan = compile_route_commands(&route, &params(), Some(99)).unwrap();
    match plan {
        CompilePlan::CancelAndPlace { pool, cancel_order_id, place } => {
            assert_eq!(pool, "SUI_USDC");
            assert_eq!(cancel_order_id, 99);
            assert_eq!(place.client_order_id, 77);
        },
        _ => panic!("expected cancel-and-place"),
    }
}

#[test]
fn compile_flash_loan_is_unsupported() {
    assert_eq!(
        compile_route_commands(&Route::FlashLoanArb {}, &params(), None),
        Err(AggrError::UnsupportedRoute)
    );
}

#[test]
fn raw_limit_order_converts_when_in_range() {
    let lo = LimitOrder {
        pool_id: "SUI_USDC".to_string(),
        side: Side::Ask,
        price: 2_000_000_000u128,
        size: 500_000_000u128,
        pay_with_deep: true,
    };
    let q = lo.to_limit_req("11".to_string()).unwrap();
    assert_eq!(q.pool, "SUI_USDC");
    assert!(!q.is_bid);
    assert_eq!(q.price, 2_000_000_000);
    assert_eq!(q.quantity, 500_000_000);
    assert!(q.pay_with_deep);
    assert_eq!(q.expiration_ms, None);

    let too_big = LimitOrder { price: u128::MAX, ..lo };
    assert!(matches!(
        too_big.to_limit_req("11".to_string()),
        Err(AggrError::BuildTx)
    ));
}

#[test]
fn plans_compare_by_total_cost() {
    let plan = |c: u64| RoutePlan {
        route: Route::FlashLoanArb {},
        score: RouteScore::new(c, 0, 0, 0, 0),
        expected_latency_ms: 0,
        uses_shared_objects: false,
        estimated_gas: 0,
    };
    assert_eq!(plan(1).compare(&plan(2)), Ordering::Less);
    assert_eq!(plan(2).compare(&plan(2)), Ordering::Equal);
    assert_eq!(plan(3).compare(&plan(2)), Ordering::Greater);
}
