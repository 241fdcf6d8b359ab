use ultra_aggr::errors::AggrError;
use ultra_aggr::quant::{quantize_price, quantize_size, PoolParams, SCALE};
use ultra_aggr::validation::{validate_limit_order, ValidationResult};
use ultra_aggr::routes::LimitReq;

fn req(price: u64, quantity: u64) -> LimitReq {
    LimitReq {
        pool: "SUI_USDC".to_string(),
        price,
        quantity,
        is_bid: true,
        client_order_id: "1".to_string(),
        pay_with_deep: false,
        expiration_ms: None,
    }
}

#[test]
fn quantize_price_rounds_down_to_tick_multiple() {
    // price 1.0005, tick 0.001 -> 1.000
    let p = quantize_price(1_000_500_000, 1_000_000).unwrap();
    assert_eq!(p, 1_000_000_000);
    assert_eq!(p % 1_000_000, 0);
}

#[test]
fn quantize_price_exact_multiple_is_kept() {
    let p = quantize_price(2_000_000_000, 1_000_000).unwrap();
    assert_eq!(p, 2_000_000_000);
}

#[test]
fn quantize_price_rejects_zero_tick_and_subtick_price() {
    assert_eq!(quantize_price(1_000_000_000, 0), Err(AggrError::BuildTx));
    assert_eq!(quantize_price(999_999, 1_000_000), Err(AggrError::BuildTx));
    assert_eq!(quantize_price(0, 1_000_000), Err(AggrError::BuildTx));
}

#[test]
fn quantize_price_is_idempotent() {
    for (price, tick) in [
        (1_234_567_890u64, 1_000_000u64),
        (999_999_999, 7),
        (5_000_000_001, 2_500_000),
    ] {
        let once = quantize_price(price, tick).unwrap();
        let twice = quantize_price(once, tick).unwrap();
        assert_eq!(once, twice);
    }
}

#[test]
fn quantize_size_rounds_down_and_respects_minimum() {
    // qty 0.35, lot 0.1, min 0.1 -> 0.3
    let q = quantize_size(350_000_000, 100_000_000, 100_000_000).unwrap();
    assert_eq!(q, 300_000_000);
    assert_eq!(q % 100_000_000, 0);
    assert!(q >= 100_000_000);
}

#[test]
fn quantize_size_rejects_below_minimum() {
    assert_eq!(
        quantize_size(99_999_999, 100_000_000, 100_000_000),
        Err(AggrError::BuildTx)
    );
    assert_eq!(quantize_size(1, 0, 1), Err(AggrError::BuildTx));
    assert_eq!(quantize_size(1, 1, 0), Err(AggrError::BuildTx));
}

#[test]
fn quantize_size_rejects_rounding_below_minimum() {
    // 16 rounds down to 10 under lot 10, which is below min 15.
    assert_eq!(quantize_size(16, 10, 15), Err(AggrError::BuildTx));
    // 25 rounds down to 20, at or above min 15: accepted.
    assert_eq!(quantize_size(25, 10, 15), Ok(20));
    assert!(quantize_size(25, 10, 15).unwrap() >= 15);
}

#[test]
fn quantize_size_is_idempotent() {
    let once = quantize_size(1_234_567_890, 30_000_000, 60_000_000).unwrap();
    let twice = quantize_size(once, 30_000_000, 60_000_000).unwrap();
    assert_eq!(once, twice);
}

#[test]
fn scale_is_one_billion() {
    assert_eq!(SCALE, 1_000_000_000);
}

#[test]
fn validation_collects_errors() {
    let mut r = ValidationResult::new();
    assert!(r.is_valid);
    assert!(r.into_result().is_ok());

    let mut r2 = ValidationResult::new();
    r2.add_error("boom".to_string());
    assert!(!r2.is_valid);
    assert_eq!(r2.errors.len(), 1);
    assert_eq!(r2.into_result(), Err(AggrError::BuildTx));
}

#[test]
fn validate_limit_order_without_params_is_invalid() {
    let r = validate_limit_order(&req(1_000_000_000, 1_000_000_000), None);
    assert!(!r.is_valid);
    assert_eq!(r.errors.len(), 1);
}

#[test]
fn validate_limit_order_checks_quantization() {
    let params = PoolParams {
        tick_size: 1_000_000,
        lot_size: 100_000_000,
        min_size: 100_000_000,
    };
    let good = validate_limit_order(&req(1_000_000_000, 1_000_000_000), Some(&params));
    assert!(good.is_valid);

    let bad_price = validate_limit_order(&req(999, 1_000_000_000), Some(&params));
    assert!(!bad_price.is_valid);

    let bad_size = validate_limit_order(&req(1_000_000_000, 1), Some(&params));
    assert!(!bad_size.is_valid);

    // A quantity whose rounded size falls below the minimum is invalid.
    let below_min = PoolParams { tick_size: 1, lot_size: 10, min_size: 15 };
    let r = validate_limit_order(&req(1_000_000_000, 16), Some(&below_min));
    assert!(!r.is_valid);
    assert_eq!(r.error_message(), "size quantization failed");
}

#[test]
fn error_messages_are_joined() {
    let mut r = ValidationResult::new();
    r.add_error("first".to_string());
    r.add_error("second".to_string());
    assert_eq!(r.error_message(), "first; second");
    assert_eq!(ValidationResult::new().error_message(), "");
}
