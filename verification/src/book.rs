//! Level-2 order book and the depth-walk slippage estimate.

use vstd::prelude::*;
use crate::quant::{PoolParams, SCALE};
use vstd::arithmetic::mul::{
    lemma_mul_inequality, lemma_mul_is_commutative, lemma_mul_is_distributive_add,
    lemma_mul_is_distributive_add_other_way, lemma_mul_upper_bound,
};

verus! {

/// Largest price or tick the slippage walk accepts, so that every
/// intermediate product fits the machine arithmetic.
pub const MAX_PRICE_UNITS: u64 = 9_223_372_036_854_775_807;

/// Strict upper bound on any slippage estimate the walk can produce.
pub const SLIPPAGE_BOUND_UNITS: u128 = 1_267_650_600_228_229_401_496_703_205_376;

/// Two ordered price ladders: bids monotone decreasing, asks monotone
/// increasing, each a pair of equal-length price and quantity vectors.
pub struct Level2Book {
    pub bid_prices: Vec<u64>,
    pub bid_quantities: Vec<u64>,
    pub ask_prices: Vec<u64>,
    pub ask_quantities: Vec<u64>,
}

impl Level2Book {
    pub open spec fn wf(self) -> bool {
        &&& self.bid_prices@.len() == self.bid_quantities@.len()
        &&& self.ask_prices@.len() == self.ask_quantities@.len()
        &&& forall|i: int, j: int|
            0 <= i <= j < self.ask_prices@.len() ==> self.ask_prices@[i] <= self.ask_prices@[j]
        &&& forall|i: int, j: int|
            0 <= i <= j < self.bid_prices@.len() ==> self.bid_prices@[i] >= self.bid_prices@[j]
    }
}

/// The smaller of two integers.
pub open spec fn min_int(a: int, b: int) -> int {
    if a <= b {
        a
    } else {
        b
    }
}

/// Cost of walking the ladder front to back, filling `remaining` units:
/// the sum of `fill · price` over the visited levels.
pub open spec fn walk_cost(prices: Seq<u64>, qtys: Seq<u64>, remaining: int) -> int
    decreases prices.len(),
{
    if prices.len() == 0 || qtys.len() == 0 || remaining <= 0 {
        0
    } else {
        min_int(remaining, qtys[0] as int) * prices[0] + walk_cost(
            prices.skip(1),
            qtys.skip(1),
            remaining - min_int(remaining, qtys[0] as int),
        )
    }
}

/// What is left of `remaining` after walking the whole ladder.
pub open spec fn walk_left(prices: Seq<u64>, qtys: Seq<u64>, remaining: int) -> int
    decreases prices.len(),
{
    if prices.len() == 0 || qtys.len() == 0 || remaining <= 0 {
        remaining
    } else {
        walk_left(prices.skip(1), qtys.skip(1), remaining - min_int(remaining, qtys[0] as int))
    }
}

/// The assumed clearing price one tick beyond the last visible level in
/// the adverse direction: above it for a bid, below it (floored at zero)
/// for an ask.
pub open spec fn worst_price(last: int, tick: int, is_bid: bool) -> int {
    if is_bid {
        last + tick
    } else if last >= tick {
        last - tick
    } else {
        0
    }
}

/// Total cost of filling `qty` against the ladder, with any unfilled
/// remainder assumed to clear at the worst price.
pub open spec fn fill_cost(prices: Seq<u64>, qtys: Seq<u64>, qty: int, tick: int, is_bid: bool) -> int {
    walk_cost(prices, qtys, qty) + if walk_left(prices, qtys, qty) > 0 {
        walk_left(prices, qtys, qty) * worst_price(prices.last() as int, tick, is_bid)
    } else {
        0
    }
}

/// Expected slippage of an order, in fixed-point quote units.
///
/// An empty ladder falls back to one percent of the order's notional.
/// Otherwise the order walks the ladder; the slippage is the adverse part
/// of the difference between the average fill price and the requested
/// price, times the quantity.
pub open spec fn slippage_spec(
    price: int,
    qty: int,
    is_bid: bool,
    prices: Seq<u64>,
    qtys: Seq<u64>,
    tick: int,
) -> int {
    if prices.len() == 0 || qtys.len() == 0 {
        (price * qty) / (100 * (SCALE as int))
    } else {
        let avg = fill_cost(prices, qtys, qty, tick, is_bid) / qty;
        let excess = if is_bid {
            if avg > price {
                avg - price
            } else {
                0
            }
        } else {
            if price > avg {
                price - avg
            } else {
                0
            }
        };
        (excess * qty) / (SCALE as int)
    }
}

/// The walk never fills more than it was asked: what is left is
/// non-negative when the request was, and the cost is bounded by the
/// filled amount times the highest admissible price.
proof fn lemma_walk_bounds(prices: Seq<u64>, qtys: Seq<u64>, remaining: int, cap: int)
    requires
        remaining >= 0,
        forall|i: int| 0 <= i < prices.len() ==> #[trigger] prices[i] <= cap,
        cap >= 0,
    ensures
        0 <= walk_left(prices, qtys, remaining) <= remaining,
        0 <= walk_cost(prices, qtys, remaining) <= (remaining - walk_left(prices, qtys, remaining))
            * cap,
    decreases prices.len(),
{
    if prices.len() == 0 || qtys.len() == 0 || remaining <= 0 {
        assert((remaining - walk_left(prices, qtys, remaining)) * cap == 0) by (nonlinear_arith)
            requires
                walk_left(prices, qtys, remaining) == remaining,
        ;
    } else {
        let fill = min_int(remaining, qtys[0] as int);
        assert(forall|i: int|
            0 <= i < prices.skip(1).len() ==> #[trigger] prices.skip(1)[i] <= cap);
        lemma_walk_bounds(prices.skip(1), qtys.skip(1), remaining - fill, cap);
        let left = walk_left(prices.skip(1), qtys.skip(1), remaining - fill);
        let tailcost = walk_cost(prices.skip(1), qtys.skip(1), remaining - fill);
        assert(walk_left(prices, qtys, remaining) == left);
        assert(walk_cost(prices, qtys, remaining) == fill * prices[0] + tailcost);
        assert(fill * prices[0] >= 0) by (nonlinear_arith)
            requires
                fill >= 0,
                prices[0] >= 0,
        ;
        assert(fill * prices[0] <= fill * cap) by {
            lemma_mul_inequality(prices[0] as int, cap, fill);
            lemma_mul_is_commutative(prices[0] as int, fill);
            lemma_mul_is_commutative(cap, fill);
        }
        assert(fill * cap + (remaining - fill - left) * cap == (remaining - left) * cap) by {
            lemma_mul_is_distributive_add_other_way(cap, fill, remaining - fill - left);
        }
    }
}

/// Walk one ladder, returning the raw fill cost and what was left over.
///
/// The cost is exact: `walk_cost`/`walk_left` of the ladder.
fn walk_ladder(prices: &Vec<u64>, qtys: &Vec<u64>, quantity: u64) -> (r: (u128, u64))
    requires
        prices@.len() == qtys@.len(),
        forall|i: int| 0 <= i < prices@.len() ==> #[trigger] prices@[i] <= MAX_PRICE_UNITS,
    ensures
        r.0 == walk_cost(prices@, qtys@, quantity as int),
        r.1 == walk_left(prices@, qtys@, quantity as int),
        r.0 <= (quantity - r.1) * (MAX_PRICE_UNITS as int),
{
    let ghost fullp: Seq<u64> = prices@;
    let ghost fullq: Seq<u64> = qtys@;
    let mut cost: u128 = 0;
    let mut rem: u64 = quantity;
    let mut i: usize = 0;
    proof {
        lemma_walk_bounds(fullp, fullq, quantity as int, MAX_PRICE_UNITS as int);
        assert(fullp.skip(0) =~= fullp);
        assert(fullq.skip(0) =~= fullq);
    }
    while i < prices.len() && rem > 0
        invariant
            prices@ == fullp,
            qtys@ == fullq,
            fullp.len() == fullq.len(),
            i <= fullp.len(),
            forall|k: int| 0 <= k < fullp.len() ==> #[trigger] fullp[k] <= MAX_PRICE_UNITS,
            rem <= quantity,
            cost + walk_cost(fullp.skip(i as int), fullq.skip(i as int), rem as int) == walk_cost(
                fullp,
                fullq,
                quantity as int,
            ),
            walk_left(fullp.skip(i as int), fullq.skip(i as int), rem as int) == walk_left(
                fullp,
                fullq,
                quantity as int,
            ),
            cost <= (quantity - rem) * (MAX_PRICE_UNITS as int),
        decreases fullp.len() - i,
    {
        let fill: u64 = if rem <= qtys[i] {
            rem
        } else {
            qtys[i]
        };
        proof {
            let fi = fill as int;
            let pi = prices@[i as int] as int;
            let cap = MAX_PRICE_UNITS as int;
            assert(fullp.skip(i as int)[0] == fullp[i as int]);
            assert(fullq.skip(i as int)[0] == fullq[i as int]);
            assert(fullp.skip(i as int).skip(1) =~= fullp.skip(i as int + 1));
            assert(fullq.skip(i as int).skip(1) =~= fullq.skip(i as int + 1));
            assert(fi * pi <= fi * cap) by {
                lemma_mul_inequality(pi, cap, fi);
                lemma_mul_is_commutative(pi, fi);
                lemma_mul_is_commutative(cap, fi);
            }
            assert((quantity - rem) * cap + fi * cap == (quantity - (rem - fi)) * cap) by {
                lemma_mul_is_distributive_add_other_way(cap, quantity as int - rem, fi);
            }
            assert((quantity - (rem - fi)) * cap <= quantity * cap) by {
                lemma_mul_inequality(quantity as int - (rem - fi), quantity as int, cap);
            }
            lemma_mul_upper_bound(quantity as int, u64::MAX as int, cap, u64::MAX as int);
            lemma_mul_upper_bound(fi, u64::MAX as int, pi, u64::MAX as int);
        }
        let level_cost: u128 = (fill as u128) * (prices[i] as u128);
        cost = cost + level_cost;
        rem = rem - fill;
        i = i + 1;
    }
    proof {
        if rem == 0 {
            assert(walk_cost(fullp.skip(i as int), fullq.skip(i as int), rem as int) == 0);
            assert(walk_left(fullp.skip(i as int), fullq.skip(i as int), rem as int) == 0);
        } else {
            assert(i == fullp.len());
            assert(fullp.skip(i as int).len() == 0);
        }
    }
    (cost, rem)
}

/// Expected slippage of filling `quantity` at `price` against the given
/// side of the book, in fixed-point quote units.
///
/// With no visible liquidity the estimate falls back to one percent of
/// the order's notional. Otherwise the order is walked through the
/// ladder, any remainder clearing one tick beyond the last level in the
/// adverse direction, and the slippage is the adverse difference between
/// the average fill price and the requested price, times the quantity.
pub fn calculate_slippage(
    price: u64,
    quantity: u64,
    is_bid: bool,
    prices: &Vec<u64>,
    qtys: &Vec<u64>,
    pool_params: &PoolParams,
) -> (r: u128)
    requires
        quantity > 0,
        prices@.len() == qtys@.len(),
        forall|i: int| 0 <= i < prices@.len() ==> #[trigger] prices@[i] <= MAX_PRICE_UNITS,
        pool_params.tick_size <= MAX_PRICE_UNITS,
    ensures
        r == slippage_spec(
            price as int,
            quantity as int,
            is_bid,
            prices@,
            qtys@,
            pool_params.tick_size as int,
        ),
        prices@.len() == 0 ==> r == (price * quantity) / (100 * SCALE),
        r < SLIPPAGE_BOUND_UNITS,
{
    if prices.len() == 0 || qtys.len() == 0 {
        proof {
            lemma_mul_upper_bound(price as int, u64::MAX as int, quantity as int, u64::MAX as int);
            vstd::arithmetic::div_mod::lemma_multiply_divide_lt(
                (price as int) * (quantity as int),
                100 * (SCALE as int),
                SLIPPAGE_BOUND_UNITS as int,
            );
        }
        return ((price as u128) * (quantity as u128)) / (100 * SCALE as u128);
    }
    let (cost, rem) = walk_ladder(prices, qtys, quantity);
    let total: u128 = if rem > 0 {
        let last: u64 = prices[prices.len() - 1];
        let worst: u64 = if is_bid {
            last + pool_params.tick_size
        } else if last >= pool_params.tick_size {
            last - pool_params.tick_size
        } else {
            0
        };
        proof {
            let cap = MAX_PRICE_UNITS as int;
            assert((quantity - rem) * cap + rem * (2 * cap + 1) <= quantity * (2 * cap + 1))
                by (nonlinear_arith)
                requires
                    0 <= rem <= quantity,
                    cap >= 0,
            ;
            lemma_mul_upper_bound(quantity as int, u64::MAX as int, 2 * cap + 1, u64::MAX as int);
            assert(rem * (worst as int) <= rem * (2 * cap + 1)) by {
                lemma_mul_inequality(worst as int, 2 * cap + 1, rem as int);
                lemma_mul_is_commutative(worst as int, rem as int);
                lemma_mul_is_commutative(2 * cap + 1, rem as int);
            }
        }
        cost + (rem as u128) * (worst as u128)
    } else {
        cost
    };
    let ghost ti = pool_params.tick_size as int;
    proof {
        assert(total == fill_cost(prices@, qtys@, quantity as int, ti, is_bid));
        let t = fill_cost(prices@, qtys@, quantity as int, ti, is_bid);
        assert(t >= 0) by {
            lemma_walk_bounds(prices@, qtys@, quantity as int, MAX_PRICE_UNITS as int);
            let left = walk_left(prices@, qtys@, quantity as int);
            if left > 0 {
                assert(left * worst_price(prices@.last() as int, ti, is_bid) >= 0)
                    by (nonlinear_arith)
                    requires
                        left >= 0,
                        worst_price(prices@.last() as int, ti, is_bid) >= 0,
                ;
            }
        }
    }
    let avg: u128 = total / (quantity as u128);
    let excess: u128 = if is_bid {
        if avg > price as u128 {
            avg - price as u128
        } else {
            0
        }
    } else {
        if (price as u128) > avg {
            price as u128 - avg
        } else {
            0
        }
    };
    proof {
        let t = fill_cost(prices@, qtys@, quantity as int, ti, is_bid);
        let qi = quantity as int;
        let ei = excess as int;
        vstd::arithmetic::div_mod::lemma_fundamental_div_mod(t, qi);
        vstd::arithmetic::div_mod::lemma_mod_division_less_than_divisor(t, qi);
        assert(qi * (t / qi) <= t);
        assert(t / qi >= 0) by (nonlinear_arith)
            requires
                t >= 0,
                qi > 0,
                qi * (t / qi) <= t,
                t - qi * (t / qi) < qi,
        ;
        if ei == 0 {
            assert(ei * qi == 0) by (nonlinear_arith)
                requires
                    ei == 0,
            ;
        } else if is_bid {
            assert(ei == t / qi - price);
            assert(ei * qi <= t) by (nonlinear_arith)
                requires
                    qi > 0,
                    ei == t / qi - price,
                    qi * (t / qi) <= t,
                    price >= 0,
            ;
        } else {
            assert(ei <= price);
            assert(ei * qi <= (price as int) * qi) by {
                lemma_mul_inequality(ei, price as int, qi);
            }
            lemma_mul_upper_bound(price as int, u64::MAX as int, qi, u64::MAX as int);
        }
        assert(ei * qi < (SCALE as int) * (SLIPPAGE_BOUND_UNITS as int));
        vstd::arithmetic::div_mod::lemma_multiply_divide_lt(
            ei * qi,
            SCALE as int,
            SLIPPAGE_BOUND_UNITS as int,
        );
    }
    (excess * (quantity as u128)) / (SCALE as u128)
}

} // verus!
