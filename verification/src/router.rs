//! The router ties selection and execution together, and holds the view
//! types the HTTP surface serves.

use vstd::prelude::*;
use crate::execution::{ExecutionEngine, ExecutionStats};
use crate::routes::{Route, RoutePlan, RouteSelection, LimitReq};
use crate::selector::{LatencyStats, RouteSelector};

verus! {

/// Selection and execution, shared by the HTTP surface.
pub struct Router {
    pub selector: RouteSelector,
    pub executor: ExecutionEngine,
}

impl Router {
    pub fn new(selector: RouteSelector, executor: ExecutionEngine) -> (r: Router)
        ensures
            r.selector == selector,
            r.executor == executor,
    {
        Router { selector, executor }
    }

    /// The route selector.
    pub fn selector(&self) -> (r: &RouteSelector)
        ensures
            r == &self.selector,
    {
        &self.selector
    }

    /// Select among candidate plans without executing, for a quote.
    pub fn select_route(&self, candidates: Vec<RoutePlan>) -> (r: Result<
        RouteSelection,
        crate::errors::AggrError,
    >)
        ensures
            r is Ok <==> candidates@.len() > 0,
            r is Err ==> r->Err_0 == crate::errors::AggrError::NoRoutes,
            (r matches Ok(sel) ==> seq![sel.plan] + sel.alternatives@
                == crate::selector::stable_sort_by_cost(candidates@)),
    {
        self.selector.select_route(candidates)
    }

    /// The execution engine.
    pub fn executor(&self) -> (r: &ExecutionEngine)
        ensures
            r == &self.executor,
    {
        &self.executor
    }
}

/// A limit-order request as received over HTTP, prices and quantities
/// already converted to fixed-point units.
#[derive(Debug, Clone)]
pub struct LimitOrderRequest {
    pub pool: String,
    pub price: u64,
    pub quantity: u64,
    pub is_bid: bool,
    pub client_order_id: String,
    pub pay_with_deep: Option<bool>,
    pub expiration_ms: Option<u64>,
}

impl LimitOrderRequest {
    /// The internal request: an absent fee-token choice defaults to no.
    pub fn to_limit_req(self) -> (r: LimitReq)
        ensures
            r.pool@ == self.pool@,
            r.price == self.price,
            r.quantity == self.quantity,
            r.is_bid == self.is_bid,
            r.client_order_id@ == self.client_order_id@,
            r.pay_with_deep == (self.pay_with_deep matches Some(true)),
            r.expiration_ms == self.expiration_ms,
    {
        let pay_with_deep: bool = match self.pay_with_deep {
            Some(b) => b,
            None => false,
        };
        LimitReq {
            pool: self.pool,
            price: self.price,
            quantity: self.quantity,
            is_bid: self.is_bid,
            client_order_id: self.client_order_id,
            pay_with_deep,
            expiration_ms: self.expiration_ms,
        }
    }
}

/// The order-execution response.
#[derive(Debug, Clone)]
pub struct LimitOrderResponse {
    pub digest: String,
    pub effects_time_ms: u64,
    pub checkpoint_time_ms: Option<u64>,
}

/// One plan, flattened for the quote response.
#[derive(Debug, Clone)]
pub struct RoutePlanResponse {
    pub route_type: String,
    pub total_cost: u128,
    pub l2_price: u64,
    pub slippage: u128,
    pub gas_cost: u128,
    pub latency_penalty: u128,
    pub risk_factor: u128,
    pub expected_latency_ms: u64,
    pub uses_shared_objects: bool,
    pub estimated_gas: u64,
}

/// The quote response: the chosen plan and the alternatives.
#[derive(Debug, Clone)]
pub struct RouteQuoteResponse {
    pub plan: RoutePlanResponse,
    pub alternatives: Vec<RoutePlanResponse>,
}

/// The stats response: execution counters and latency estimates.
#[derive(Debug, Clone)]
pub struct StatsResponse {
    pub execution: ExecutionStats,
    pub latency: LatencyStats,
}

/// An error rendered to the caller.
#[derive(Debug, Clone)]
pub struct ErrorResponse {
    pub error: String,
}

/// Manual latency-estimate override; absent fields keep their value.
#[derive(Debug, Clone, PartialEq, Eq, Structural)]
pub struct UpdateLatencyRequest {
    pub base_latency_ms: Option<u64>,
    pub shared_latency_ms: Option<u64>,
}

/// The variant name of a route.
pub fn route_kind_label(route: &Route) -> (r: String)
    ensures
        route is DeepBookSingle ==> r@ == "DeepBookSingle"@,
        route is MultiVenueSplit ==> r@ == "MultiVenueSplit"@,
        route is CancelReplace ==> r@ == "CancelReplace"@,
        route is FlashLoanArb ==> r@ == "FlashLoanArb"@,
{
    match route {
        Route::DeepBookSingle(_) => "DeepBookSingle".to_owned(),
        Route::MultiVenueSplit { .. } => "MultiVenueSplit".to_owned(),
        Route::CancelReplace { .. } => "CancelReplace".to_owned(),
        Route::FlashLoanArb {  } => "FlashLoanArb".to_owned(),
    }
}

/// Whether a response row reproduces a plan's figures.
pub open spec fn is_plan_view(v: RoutePlanResponse, p: RoutePlan) -> bool {
    &&& v.total_cost == p.score.total_cost
    &&& v.l2_price == p.score.l2_price
    &&& v.slippage == p.score.slippage
    &&& v.gas_cost == p.score.gas_cost
    &&& v.latency_penalty == p.score.latency_penalty
    &&& v.risk_factor == p.score.risk_factor
    &&& v.expected_latency_ms == p.expected_latency_ms
    &&& v.uses_shared_objects == p.uses_shared_objects
    &&& v.estimated_gas == p.estimated_gas
}

/// Flatten one plan for the quote response.
pub fn plan_view(plan: &RoutePlan) -> (r: RoutePlanResponse)
    ensures
        is_plan_view(r, *plan),
{
    RoutePlanResponse {
        route_type: route_kind_label(&plan.route),
        total_cost: plan.score.total_cost,
        l2_price: plan.score.l2_price,
        slippage: plan.score.slippage,
        gas_cost: plan.score.gas_cost,
        latency_penalty: plan.score.latency_penalty,
        risk_factor: plan.score.risk_factor,
        expected_latency_ms: plan.expected_latency_ms,
        uses_shared_objects: plan.uses_shared_objects,
        estimated_gas: plan.estimated_gas,
    }
}

/// Flatten a selection: the chosen plan first, then every alternative in
/// order.
pub fn quote_view(sel: &RouteSelection) -> (r: RouteQuoteResponse)
    ensures
        is_plan_view(r.plan, sel.plan),
        r.alternatives@.len() == sel.alternatives@.len(),
        forall|i: int|
            0 <= i < r.alternatives@.len() ==> is_plan_view(
                #[trigger] r.alternatives@[i],
                sel.alternatives@[i],
            ),
{
    let mut alternatives: Vec<RoutePlanResponse> = Vec::new();
    let mut i: usize = 0;
    while i < sel.alternatives.len()
        invariant
            i <= sel.alternatives@.len(),
            alternatives@.len() == i,
            forall|j: int|
                0 <= j < i ==> is_plan_view(
                    #[trigger] alternatives@[j],
                    sel.alternatives@[j],
                ),
        decreases sel.alternatives@.len() - i,
    {
        alternatives.push(plan_view(&sel.alternatives[i]));
        i = i + 1;
    }
    RouteQuoteResponse { plan: plan_view(&sel.plan), alternatives }
}

/// Apply a manual latency override: absent fields keep the current
/// estimate.
pub fn apply_latency_update(selector: &mut RouteSelector, req: &UpdateLatencyRequest)
    requires
        old(selector).wf(),
    ensures
        final(selector).wf(),
        final(selector).base_latency_ms == (match req.base_latency_ms {
            Some(b) => b,
            None => old(selector).base_latency_ms,
        }),
        final(selector).shared_object_latency_ms == (match req.shared_latency_ms {
            Some(s) => s,
            None => old(selector).shared_object_latency_ms,
        }),
        final(selector).owned_latency_samples@ == old(selector).owned_latency_samples@,
        final(selector).shared_latency_samples@ == old(selector).shared_latency_samples@,
{
    let (current_base, current_shared) = selector.get_latency_estimates();
    let new_base: u64 = match req.base_latency_ms {
        Some(b) => b,
        None => current_base,
    };
    let new_shared: u64 = match req.shared_latency_ms {
        Some(s) => s,
        None => current_shared,
    };
    selector.update_latency_estimates(new_base, new_shared);
}

} // verus!
