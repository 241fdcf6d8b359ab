//! Route variants, plans, and the price-of-execution score.

use vstd::prelude::*;
use crate::quant::SCALE;
use crate::validator::sat_sub;

verus! {

/// A limit-order request, prices and quantities in fixed-point units.
#[derive(Debug, Clone)]
pub struct LimitReq {
    /// Pool identifier.
    pub pool: String,
    /// Limit price, in fixed-point quote units.
    pub price: u64,
    /// Quantity, in fixed-point base units.
    pub quantity: u64,
    /// `true` for a bid, `false` for an ask.
    pub is_bid: bool,
    /// Caller-chosen order identifier; must parse as a decimal `u64`.
    pub client_order_id: String,
    /// Pay the venue fee in the venue's native token.
    pub pay_with_deep: bool,
    /// Expiration, milliseconds since the epoch; `None` means never.
    pub expiration_ms: Option<u64>,
}

impl LimitReq {
    /// A field-by-field copy of the request.
    pub fn duplicate(&self) -> (r: LimitReq)
        ensures
            r.pool@ == self.pool@,
            r.price == self.price,
            r.quantity == self.quantity,
            r.is_bid == self.is_bid,
            r.client_order_id@ == self.client_order_id@,
            r.pay_with_deep == self.pay_with_deep,
            r.expiration_ms == self.expiration_ms,
    {
        LimitReq {
            pool: self.pool.clone(),
            price: self.price,
            quantity: self.quantity,
            is_bid: self.is_bid,
            client_order_id: self.client_order_id.clone(),
            pay_with_deep: self.pay_with_deep,
            expiration_ms: self.expiration_ms,
        }
    }
}

/// A route strategy that can be compiled into a transaction.
#[derive(Debug, Clone)]
pub enum Route {
    /// Single-leg order on the order-book venue.
    DeepBookSingle(LimitReq),
    /// Orders split across venues, composed into one transaction.
    MultiVenueSplit { deepbook: Option<LimitReq> },
    /// Cancel a prior order by digest, then place a replacement.
    CancelReplace { cancel_digest: String, replace: LimitReq },
    /// Flash-loan backed arbitrage; not yet compilable.
    FlashLoanArb {},
}

/// Price-of-execution score; every component in fixed-point quote units.
/// `total_cost` is exactly the sum of the five components.
#[derive(Debug, Clone, PartialEq, Eq, Structural)]
pub struct RouteScore {
    /// Sum of the five cost components.
    pub total_cost: u128,
    /// Reference level-2 price.
    pub l2_price: u64,
    /// Expected fill slippage, venue fee included.
    pub slippage: u128,
    /// Gas cost converted into quote units.
    pub gas_cost: u128,
    /// Penalty for expected latency beyond the fast path.
    pub latency_penalty: u128,
    /// Venue failure risk charge.
    pub risk_factor: u128,
}

/// Componentwise bound under which the five costs always sum within the
/// score's arithmetic.
pub const MAX_COST_COMPONENT: u128 = 42_535_295_865_117_307_932_921_825_928_971_026_431;

impl RouteScore {
    /// The total is the sum of the parts.
    pub open spec fn wf(self) -> bool {
        self.total_cost == self.l2_price + self.slippage + self.gas_cost + self.latency_penalty
            + self.risk_factor
    }

    /// Build a score; the total cost is the sum of the five components.
    pub fn new(
        l2_price: u64,
        slippage: u128,
        gas_cost: u128,
        latency_penalty: u128,
        risk_factor: u128,
    ) -> (r: RouteScore)
        requires
            slippage <= MAX_COST_COMPONENT,
            gas_cost <= MAX_COST_COMPONENT,
            latency_penalty <= MAX_COST_COMPONENT,
            risk_factor <= MAX_COST_COMPONENT,
        ensures
            r.wf(),
            r.total_cost == l2_price + slippage + gas_cost + latency_penalty + risk_factor,
            r.l2_price == l2_price,
            r.slippage == slippage,
            r.gas_cost == gas_cost,
            r.latency_penalty == latency_penalty,
            r.risk_factor == risk_factor,
    {
        let total_cost: u128 = (l2_price as u128) + slippage + gas_cost + latency_penalty
            + risk_factor;
        RouteScore { total_cost, l2_price, slippage, gas_cost, latency_penalty, risk_factor }
    }

    /// The latency penalty of a route: zero on the fast path; on a
    /// shared-resource path, the excess over the fast-path baseline, at
    /// one basis point of notional per 100 ms.
    pub fn latency_penalty_for_route(
        uses_shared_objects: bool,
        expected_latency_ms: u64,
        base_latency_ms: u64,
        notional: u64,
    ) -> (r: u128)
        ensures
            r == spec_latency_penalty(
                uses_shared_objects,
                expected_latency_ms as int,
                base_latency_ms as int,
                notional as int,
            ),
    {
        if uses_shared_objects {
            let excess: u64 = if expected_latency_ms >= base_latency_ms {
                expected_latency_ms - base_latency_ms
            } else {
                0
            };
            proof {
                vstd::arithmetic::mul::lemma_mul_upper_bound(
                    excess as int,
                    u64::MAX as int,
                    notional as int,
                    u64::MAX as int,
                );
            }
            ((excess as u128) * (notional as u128)) / 1_000_000
        } else {
            0
        }
    }
}

/// The latency penalty, in fixed-point quote units:
/// `(excess over baseline / 100 ms) · 1e-4 · notional` for shared-resource
/// routes, zero for fast-path routes.
pub open spec fn spec_latency_penalty(
    uses_shared_objects: bool,
    expected_latency_ms: int,
    base_latency_ms: int,
    notional: int,
) -> int {
    if uses_shared_objects {
        (sat_sub(expected_latency_ms, base_latency_ms) * notional) / 1_000_000
    } else {
        0
    }
}

/// The notional of an order, in fixed-point quote units:
/// `price · quantity`.
pub open spec fn spec_notional(price: int, quantity: int) -> int {
    (price * quantity) / (SCALE as int)
}

/// A scored route with its execution metadata.
#[derive(Debug, Clone)]
pub struct RoutePlan {
    pub route: Route,
    pub score: RouteScore,
    /// Expected execution latency in milliseconds.
    pub expected_latency_ms: u64,
    /// Whether the route touches shared resources (requires consensus).
    pub uses_shared_objects: bool,
    /// Estimated gas cost in gas units.
    pub estimated_gas: u64,
}

impl RoutePlan {
    /// Plan a single-leg order-book route. The venue settles through a
    /// shared resource, so the plan carries the shared-path latency and
    /// its penalty; the gas estimate is the flat limit-order estimate.
    pub fn deepbook_single(
        req: LimitReq,
        l2_price: u64,
        slippage: u128,
        gas_cost: u128,
        expected_latency_ms: u64,
        base_latency_ms: u64,
        risk_factor: u128,
        notional: u64,
    ) -> (r: RoutePlan)
        requires
            slippage <= MAX_COST_COMPONENT,
            gas_cost <= MAX_COST_COMPONENT,
            risk_factor <= MAX_COST_COMPONENT,
        ensures
            r.score.wf(),
            r.route matches Route::DeepBookSingle(q) && q.price == req.price && q.quantity
                == req.quantity && q.is_bid == req.is_bid && q.pool@ == req.pool@,
            r.score.l2_price == l2_price,
            r.score.slippage == slippage,
            r.score.gas_cost == gas_cost,
            r.score.latency_penalty == spec_latency_penalty(
                true,
                expected_latency_ms as int,
                base_latency_ms as int,
                notional as int,
            ),
            r.score.risk_factor == risk_factor,
            r.expected_latency_ms == expected_latency_ms,
            r.uses_shared_objects == true,
            r.estimated_gas == 10_000_000,
    {
        let uses_shared_objects = true;
        let latency_penalty = RouteScore::latency_penalty_for_route(
            uses_shared_objects,
            expected_latency_ms,
            base_latency_ms,
            notional,
        );
        proof {
            vstd::arithmetic::mul::lemma_mul_upper_bound(
                sat_sub(expected_latency_ms as int, base_latency_ms as int),
                u64::MAX as int,
                notional as int,
                u64::MAX as int,
            );
        }
        let score = RouteScore::new(l2_price, slippage, gas_cost, latency_penalty, risk_factor);
        RoutePlan {
            route: Route::DeepBookSingle(req),
            score,
            expected_latency_ms,
            uses_shared_objects,
            estimated_gas: 10_000_000,
        }
    }

    /// Order plans by total cost, lower first.
    pub fn compare(&self, other: &RoutePlan) -> (r: core::cmp::Ordering)
        ensures
            r is Less <==> self.score.total_cost < other.score.total_cost,
            r is Equal <==> self.score.total_cost == other.score.total_cost,
            r is Greater <==> self.score.total_cost > other.score.total_cost,
    {
        if self.score.total_cost < other.score.total_cost {
            core::cmp::Ordering::Less
        } else if self.score.total_cost == other.score.total_cost {
            core::cmp::Ordering::Equal
        } else {
            core::cmp::Ordering::Greater
        }
    }
}

/// The selected plan and the remaining alternatives, best first.
#[derive(Debug)]
pub struct RouteSelection {
    pub plan: RoutePlan,
    pub alternatives: Vec<RoutePlan>,
}

impl RouteSelection {
    /// The chosen plan.
    pub fn best_plan(&self) -> (r: &RoutePlan)
        ensures
            r == &self.plan,
    {
        &self.plan
    }
}

} // verus!
