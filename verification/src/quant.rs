//! Price and size quantization against pool constraints.
//!
//! Prices and sizes are fixed-point integers: `SCALE` units make one whole
//! quote (for prices) or base (for sizes) unit.

use vstd::prelude::*;
use crate::errors::AggrError;
use vstd::arithmetic::div_mod::{
    lemma_fundamental_div_mod, lemma_div_is_ordered, lemma_div_multiples_vanish,
    lemma_mod_multiples_basic, lemma_div_non_zero, lemma_mod_division_less_than_divisor,
};
use vstd::arithmetic::mul::{lemma_mul_inequality, lemma_mul_is_commutative};

verus! {

/// Number of fixed-point units in one whole quote or base unit.
pub const SCALE: u64 = 1_000_000_000;

/// Pool trading constraints, in fixed-point units.
#[derive(Debug, Clone, PartialEq, Eq, Structural)]
pub struct PoolParams {
    /// Tick size: prices must be positive integer multiples of this.
    pub tick_size: u64,
    /// Lot size: sizes must be positive integer multiples of this.
    pub lot_size: u64,
    /// Minimum order size.
    pub min_size: u64,
}

impl PoolParams {
    /// All constraints are positive.
    pub open spec fn wf(self) -> bool {
        self.tick_size > 0 && self.lot_size > 0 && self.min_size > 0
    }
}

/// The largest multiple of `step` that is at most `x`.
pub open spec fn round_down(x: int, step: int) -> int {
    (x / step) * step
}

/// Whether a price can be quantized: the tick is positive and at least one
/// whole tick fits in the price.
pub open spec fn price_quantizable(price: int, tick_size: int) -> bool {
    tick_size > 0 && price >= tick_size
}

/// Whether a size can be quantized: lot and minimum are positive, the
/// quantity reaches the minimum size and one whole lot, and rounding
/// down to the lot still meets the minimum.
pub open spec fn size_quantizable(quantity: int, lot_size: int, min_size: int) -> bool {
    lot_size > 0 && min_size > 0 && quantity >= min_size && quantity >= lot_size && round_down(
        quantity,
        lot_size,
    ) >= min_size
}

/// Quantize a price down to a positive integer multiple of the tick size.
///
/// Returns `BuildTx` exactly when the tick is zero or the price lies below
/// one tick.
pub fn quantize_price(price: u64, tick_size: u64) -> (r: Result<u64, AggrError>)
    ensures
        r is Ok <==> price_quantizable(price as int, tick_size as int),
        r is Ok ==> r->Ok_0 == round_down(price as int, tick_size as int),
        r is Ok ==> r->Ok_0 >= tick_size,
        r is Err ==> r->Err_0 == AggrError::BuildTx,
{
    if tick_size == 0 || price < tick_size {
        return Err(AggrError::BuildTx);
    }
    let steps: u64 = price / tick_size;
    proof {
        lemma_div_non_zero(price as int, tick_size as int);
        lemma_fundamental_div_mod(price as int, tick_size as int);
        lemma_mod_division_less_than_divisor(price as int, tick_size as int);
        lemma_mul_inequality(1, steps as int, tick_size as int);
    }
    Ok(steps * tick_size)
}

/// Quantize a size down to a positive integer multiple of the lot size
/// that still meets the minimum size.
///
/// Returns `BuildTx` exactly when the lot or minimum is zero, the quantity
/// is below the minimum, less than one whole lot fits in it, or rounding
/// down to the lot would fall below the minimum.
pub fn quantize_size(quantity: u64, lot_size: u64, min_size: u64) -> (r: Result<u64, AggrError>)
    ensures
        r is Ok <==> size_quantizable(quantity as int, lot_size as int, min_size as int),
        r is Ok ==> r->Ok_0 == round_down(quantity as int, lot_size as int),
        r is Ok ==> r->Ok_0 >= lot_size,
        r is Ok ==> r->Ok_0 >= min_size,
        r is Err ==> r->Err_0 == AggrError::BuildTx,
{
    if lot_size == 0 || min_size == 0 {
        return Err(AggrError::BuildTx);
    }
    if quantity < min_size || quantity < lot_size {
        return Err(AggrError::BuildTx);
    }
    let steps: u64 = quantity / lot_size;
    proof {
        lemma_div_non_zero(quantity as int, lot_size as int);
        lemma_fundamental_div_mod(quantity as int, lot_size as int);
        lemma_mod_division_less_than_divisor(quantity as int, lot_size as int);
        lemma_mul_inequality(1, steps as int, lot_size as int);
    }
    let quantized: u64 = steps * lot_size;
    if quantized < min_size {
        return Err(AggrError::BuildTx);
    }
    Ok(quantized)
}

/// A quantized price is an integer multiple of the tick size, and a
/// quantized size an integer multiple of the lot size.
pub proof fn lemma_round_down_is_multiple(x: int, step: int)
    requires
        step > 0,
    ensures
        round_down(x, step) % step == 0,
{
    lemma_mod_multiples_basic(x / step, step);
}

/// Quantizing an already quantized value changes nothing: `round_down` is
/// idempotent.
pub proof fn lemma_round_down_idempotent(x: int, step: int)
    requires
        step > 0,
    ensures
        round_down(round_down(x, step), step) == round_down(x, step),
{
    lemma_div_multiples_vanish(x / step, step);
}

/// A quantizable size stays at or above the minimum size once rounded
/// down to the lot.
pub proof fn lemma_quantized_size_reaches_min(quantity: int, lot_size: int, min_size: int)
    requires
        size_quantizable(quantity, lot_size, min_size),
    ensures
        round_down(quantity, lot_size) >= min_size,
{
}

/// Quantizing a size is idempotent: a quantized size is itself
/// quantizable and quantizes to itself.
pub proof fn lemma_quantize_size_idempotent(quantity: int, lot_size: int, min_size: int)
    requires
        size_quantizable(quantity, lot_size, min_size),
    ensures
        size_quantizable(round_down(quantity, lot_size), lot_size, min_size),
        round_down(round_down(quantity, lot_size), lot_size) == round_down(quantity, lot_size),
{
    lemma_round_down_idempotent(quantity, lot_size);
    lemma_div_non_zero(quantity, lot_size);
    lemma_mul_inequality(1, quantity / lot_size, lot_size);
    assert(1 * lot_size == lot_size) by (nonlinear_arith);
}

} // verus!
