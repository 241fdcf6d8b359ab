//! Route selection: score candidate routes from a market snapshot and
//! pick the cheapest, keeping the rest as ordered alternatives; feed
//! observed execution latencies back into the latency estimates.

use vstd::prelude::*;
use crate::book::{calculate_slippage, slippage_spec, Level2Book, MAX_PRICE_UNITS};
use crate::errors::AggrError;
use crate::quant::{PoolParams, SCALE};
use crate::routes::{spec_latency_penalty, spec_notional, LimitReq, Route, RoutePlan, RouteSelection};
use crate::validator::ewma_step;
use vstd::arithmetic::div_mod::{lemma_div_is_ordered, lemma_div_multiples_vanish};
use vstd::arithmetic::mul::{lemma_mul_is_commutative, lemma_mul_upper_bound};

verus! {

/// Gas units assumed for a limit order.
pub const LIMIT_ORDER_GAS_UNITS: u64 = 10_000_000;

/// Largest reference gas price the scorer accepts.
pub const MAX_GAS_PRICE: u64 = 1_000_000_000_000;

/// Everything the scorer reads from the venue for one request.
pub struct MarketSnapshot {
    /// Pool quantization constraints.
    pub pool_params: PoolParams,
    /// Mid price, fixed-point quote units.
    pub mid_price: u64,
    /// Level-2 depth around the mid.
    pub book: Level2Book,
    /// Taker fee rate, fixed-point (SCALE = 100%).
    pub taker_fee: u64,
    /// Maker fee rate, fixed-point.
    pub maker_fee: u64,
    /// Reference gas price, native base units per gas unit.
    pub gas_price: u64,
}

impl MarketSnapshot {
    pub open spec fn wf(self) -> bool {
        &&& self.pool_params.wf()
        &&& self.book.wf()
        &&& self.pool_params.tick_size <= MAX_PRICE_UNITS
        &&& forall|i: int|
            0 <= i < self.book.ask_prices@.len() ==> #[trigger] self.book.ask_prices@[i]
                <= MAX_PRICE_UNITS
        &&& forall|i: int|
            0 <= i < self.book.bid_prices@.len() ==> #[trigger] self.book.bid_prices@[i]
                <= MAX_PRICE_UNITS
        &&& self.taker_fee <= SCALE
        &&& self.maker_fee <= SCALE
        &&& self.gas_price <= MAX_GAS_PRICE
    }
}

/// The fee rate an order pays: taker when the limit crosses the mid,
/// maker otherwise.
pub open spec fn spec_fee_rate(
    is_bid: bool,
    price: int,
    mid: int,
    taker_fee: int,
    maker_fee: int,
) -> int {
    if is_bid {
        if price >= mid {
            taker_fee
        } else {
            maker_fee
        }
    } else {
        if price <= mid {
            taker_fee
        } else {
            maker_fee
        }
    }
}

/// The venue fee in quote units: `notional · rate`.
pub open spec fn spec_fee(notional: int, rate: int) -> int {
    (notional * rate) / (SCALE as int)
}

/// Gas cost converted to quote units:
/// `gas units · gas price · l2 price / 1e9`.
pub open spec fn spec_gas_cost(gas_price: int, l2_price: int) -> int {
    (LIMIT_ORDER_GAS_UNITS * gas_price * l2_price) / (SCALE as int)
}

/// The reference level-2 price: the better of the requested price and
/// the mid, from the caller's perspective.
pub open spec fn spec_l2_price(is_bid: bool, price: int, mid: int) -> int {
    if is_bid {
        if price >= mid {
            price
        } else {
            mid
        }
    } else {
        if price <= mid {
            price
        } else {
            mid
        }
    }
}

/// Sum of a sample window.
pub open spec fn sum_u64(s: Seq<u64>) -> int
    decreases s.len(),
{
    if s.len() == 0 {
        0
    } else {
        sum_u64(s.drop_last()) + s.last()
    }
}

proof fn lemma_sum_bound(s: Seq<u64>)
    ensures
        0 <= sum_u64(s) <= s.len() * (u64::MAX as int),
    decreases s.len(),
{
    if s.len() == 0 {
    } else {
        lemma_sum_bound(s.drop_last());
        assert((s.len() - 1) * (u64::MAX as int) + u64::MAX == s.len() * (u64::MAX as int))
            by (nonlinear_arith);
    }
}

/// Insert a plan into a cost-sorted sequence, after every plan that does
/// not cost more: the stable insertion.
pub open spec fn insert_sorted(s: Seq<RoutePlan>, x: RoutePlan) -> Seq<RoutePlan>
    decreases s.len(),
{
    if s.len() == 0 {
        seq![x]
    } else if s.last().score.total_cost <= x.score.total_cost {
        s.push(x)
    } else {
        insert_sorted(s.drop_last(), x).push(s.last())
    }
}

/// Stable sort by total cost ascending: plans of equal cost keep the
/// order in which their candidates were generated.
pub open spec fn stable_sort_by_cost(s: Seq<RoutePlan>) -> Seq<RoutePlan>
    decreases s.len(),
{
    if s.len() == 0 {
        s
    } else {
        insert_sorted(stable_sort_by_cost(s.drop_last()), s.last())
    }
}

proof fn lemma_insert_sorted_len(s: Seq<RoutePlan>, x: RoutePlan)
    ensures
        insert_sorted(s, x).len() == s.len() + 1,
    decreases s.len(),
{
    if s.len() == 0 {
    } else if s.last().score.total_cost <= x.score.total_cost {
    } else {
        lemma_insert_sorted_len(s.drop_last(), x);
    }
}

proof fn lemma_stable_sort_len(s: Seq<RoutePlan>)
    ensures
        stable_sort_by_cost(s).len() == s.len(),
    decreases s.len(),
{
    if s.len() == 0 {
    } else {
        lemma_stable_sort_len(s.drop_last());
        lemma_insert_sorted_len(stable_sort_by_cost(s.drop_last()), s.last());
    }
}

/// Inserting at position `j` — the first position from the right whose
/// predecessor does not cost more — realizes the stable insertion.
proof fn lemma_insert_at(s: Seq<RoutePlan>, x: RoutePlan, j: int)
    requires
        0 <= j <= s.len(),
        forall|i: int| j <= i < s.len() ==> s[i].score.total_cost > x.score.total_cost,
        j > 0 ==> s[j - 1].score.total_cost <= x.score.total_cost,
    ensures
        insert_sorted(s, x) == s.take(j).push(x) + s.skip(j),
    decreases s.len() - j,
{
    if j == s.len() {
        if s.len() == 0 {
            assert(insert_sorted(s, x) =~= s.take(j).push(x) + s.skip(j));
        } else {
            assert(s.last().score.total_cost <= x.score.total_cost);
            assert(insert_sorted(s, x) == s.push(x));
            assert(s.push(x) =~= s.take(j).push(x) + s.skip(j));
        }
    } else {
        assert(s[s.len() - 1].score.total_cost > x.score.total_cost);
        let pre = s.drop_last();
        assert(forall|i: int| j <= i < pre.len() ==> pre[i].score.total_cost > x.score.total_cost);
        if j > 0 {
            assert(pre[j - 1] == s[j - 1]);
        }
        lemma_insert_at(pre, x, j);
        assert(insert_sorted(s, x) == insert_sorted(pre, x).push(s.last()));
        assert((pre.take(j).push(x) + pre.skip(j)).push(s.last()) =~= s.take(j).push(x) + s.skip(
            j,
        ));
    }
}

/// Insert a plan into a cost-sorted vector, keeping it sorted and stable.
fn insert_plan(sorted: &mut Vec<RoutePlan>, x: RoutePlan)
    ensures
        final(sorted)@ == insert_sorted(old(sorted)@, x),
{
    let ghost orig: Seq<RoutePlan> = sorted@;
    let mut j: usize = sorted.len();
    while j > 0 && sorted[j - 1].score.total_cost > x.score.total_cost
        invariant
            sorted@ == orig,
            j <= orig.len(),
            forall|i: int| j <= i < orig.len() ==> orig[i].score.total_cost > x.score.total_cost,
        decreases j,
    {
        j = j - 1;
    }
    proof {
        lemma_insert_at(orig, x, j as int);
    }
    sorted.insert(j, x);
    proof {
        assert(sorted@ =~= orig.take(j as int).push(x) + orig.skip(j as int));
    }
}

/// Per-side latency statistics for monitoring.
#[derive(Debug, Clone, PartialEq, Eq, Structural)]
pub struct LatencyStats {
    pub base_latency_ms: u64,
    pub shared_latency_ms: u64,
    pub owned_samples: usize,
    pub shared_samples: usize,
    pub owned_avg: Option<u64>,
    pub shared_avg: Option<u64>,
}

/// Route selector: holds the adaptive latency estimates for the owned-
/// and shared-resource paths, and the recent latency samples behind them.
pub struct RouteSelector {
    /// Latency estimate for fast-path (owned-resource) routes.
    pub base_latency_ms: u64,
    /// Latency estimate for shared-resource routes.
    pub shared_object_latency_ms: u64,
    /// Recent observations on owned-resource routes, oldest first.
    pub owned_latency_samples: Vec<u64>,
    /// Recent observations on shared-resource routes, oldest first.
    pub shared_latency_samples: Vec<u64>,
    /// Bound on either sample window.
    pub max_samples: usize,
    /// Smoothing numerator for estimate updates.
    pub alpha_num: u64,
    /// Smoothing denominator for estimate updates.
    pub alpha_den: u64,
}

impl RouteSelector {
    pub open spec fn wf(self) -> bool {
        &&& self.owned_latency_samples@.len() <= self.max_samples
        &&& self.shared_latency_samples@.len() <= self.max_samples
        &&& 0 < self.max_samples <= 1000
        &&& 0 < self.alpha_num <= self.alpha_den
    }

    /// A selector with the given starting estimates, keeping up to 100
    /// samples per path and smoothing estimate updates by 1/10.
    pub fn new(base_latency_ms: u64, shared_object_latency_ms: u64) -> (r: RouteSelector)
        ensures
            r.wf(),
            r.base_latency_ms == base_latency_ms,
            r.shared_object_latency_ms == shared_object_latency_ms,
            r.owned_latency_samples@.len() == 0,
            r.shared_latency_samples@.len() == 0,
            r.max_samples == 100,
            r.alpha_num == 1 && r.alpha_den == 10,
    {
        RouteSelector {
            base_latency_ms,
            shared_object_latency_ms,
            owned_latency_samples: Vec::new(),
            shared_latency_samples: Vec::new(),
            max_samples: 100,
            alpha_num: 1,
            alpha_den: 10,
        }
    }

    /// Score a single-venue limit order against a market snapshot.
    ///
    /// The reference price is the better of the requested price and the
    /// mid; the order walks the opposing side of the book for slippage;
    /// the fee is taker or maker by whether the limit crosses the mid;
    /// gas is converted at the reference price; the shared-path latency
    /// estimate sets the expected latency and its penalty; the risk
    /// charge is one part in 100,000 of notional.
    #[verifier::rlimit(60)]
    pub fn score_limit_order(&self, req: &LimitReq, market: &MarketSnapshot) -> (r: RoutePlan)
        requires
            market.wf(),
            req.quantity > 0,
            spec_notional(req.price as int, req.quantity as int) <= u64::MAX,
        ensures
            r.score.wf(),
            r.route matches Route::DeepBookSingle(q) && q.price == req.price && q.quantity
                == req.quantity && q.is_bid == req.is_bid && q.pool@ == req.pool@,
            r.score.l2_price == spec_l2_price(
                req.is_bid,
                req.price as int,
                market.mid_price as int,
            ),
            r.score.slippage == slippage_spec(
                req.price as int,
                req.quantity as int,
                req.is_bid,
                if req.is_bid {
                    market.book.ask_prices@
                } else {
                    market.book.bid_prices@
                },
                if req.is_bid {
                    market.book.ask_quantities@
                } else {
                    market.book.bid_quantities@
                },
                market.pool_params.tick_size as int,
            ) + spec_fee(
                spec_notional(req.price as int, req.quantity as int),
                spec_fee_rate(
                    req.is_bid,
                    req.price as int,
                    market.mid_price as int,
                    market.taker_fee as int,
                    market.maker_fee as int,
                ),
            ),
            r.score.gas_cost == spec_gas_cost(
                market.gas_price as int,
                spec_l2_price(req.is_bid, req.price as int, market.mid_price as int),
            ),
            r.score.latency_penalty == spec_latency_penalty(
                true,
                self.shared_object_latency_ms as int,
                self.base_latency_ms as int,
                spec_notional(req.price as int, req.quantity as int),
            ),
            r.score.risk_factor == spec_notional(req.price as int, req.quantity as int) / 100_000,
            r.expected_latency_ms == self.shared_object_latency_ms,
            r.uses_shared_objects == true,
            r.estimated_gas == 10_000_000,
    {
        let l2_price: u64 = if req.is_bid {
            if req.price >= market.mid_price {
                req.price
            } else {
                market.mid_price
            }
        } else {
            if req.price <= market.mid_price {
                req.price
            } else {
                market.mid_price
            }
        };

        let slippage: u128 = if req.is_bid {
            calculate_slippage(
                req.price,
                req.quantity,
                true,
                &market.book.ask_prices,
                &market.book.ask_quantities,
                &market.pool_params,
            )
        } else {
            calculate_slippage(
                req.price,
                req.quantity,
                false,
                &market.book.bid_prices,
                &market.book.bid_quantities,
                &market.pool_params,
            )
        };

        proof {
            lemma_mul_upper_bound(
                req.price as int,
                u64::MAX as int,
                req.quantity as int,
                u64::MAX as int,
            );
        }
        let notional: u64 = (((req.price as u128) * (req.quantity as u128)) / (SCALE as u128))
            as u64;

        let fee_rate: u64 = if req.is_bid {
            if req.price >= market.mid_price {
                market.taker_fee
            } else {
                market.maker_fee
            }
        } else {
            if req.price <= market.mid_price {
                market.taker_fee
            } else {
                market.maker_fee
            }
        };
        proof {
            lemma_mul_upper_bound(notional as int, u64::MAX as int, fee_rate as int, SCALE as int);
        }
        let fee_cost: u128 = ((notional as u128) * (fee_rate as u128)) / (SCALE as u128);

        proof {
            let g = LIMIT_ORDER_GAS_UNITS as int;
            let gp = market.gas_price as int;
            let l2 = l2_price as int;
            lemma_mul_upper_bound(g, LIMIT_ORDER_GAS_UNITS as int, gp, MAX_GAS_PRICE as int);
            lemma_mul_upper_bound(
                g * gp,
                LIMIT_ORDER_GAS_UNITS as int * MAX_GAS_PRICE as int,
                l2,
                u64::MAX as int,
            );
        }
        let gas_cost: u128 = ((LIMIT_ORDER_GAS_UNITS as u128) * (market.gas_price as u128) * (
        l2_price as u128)) / (SCALE as u128);

        let risk_factor: u128 = (notional as u128) / 100_000;

        proof {
            let denom = SCALE as int;
            lemma_div_is_ordered(
                (notional as int) * (fee_rate as int),
                (u64::MAX as int) * denom,
                denom,
            );
            lemma_div_multiples_vanish(u64::MAX as int, denom);
            lemma_mul_is_commutative(u64::MAX as int, denom);
            lemma_div_is_ordered(
                (LIMIT_ORDER_GAS_UNITS as int) * (market.gas_price as int) * (l2_price as int),
                (LIMIT_ORDER_GAS_UNITS as int) * (MAX_GAS_PRICE as int) * (u64::MAX as int),
                denom,
            );
        }

        proof {
            assert(slippage < crate::book::SLIPPAGE_BOUND_UNITS);
            assert(fee_cost <= u64::MAX);
        }
        let slippage_with_fee: u128 = slippage + fee_cost;
        RoutePlan::deepbook_single(
            req.duplicate(),
            l2_price,
            slippage_with_fee,
            gas_cost,
            self.shared_object_latency_ms,
            self.base_latency_ms,
            risk_factor,
            notional,
        )
    }

    /// Order the candidate plans by total cost ascending, stably, and
    /// return the cheapest with the rest as alternatives. Fails with
    /// `NoRoutes` exactly when no candidate was given.
    pub fn select_route(&self, candidates: Vec<RoutePlan>) -> (r: Result<RouteSelection, AggrError>)
        ensures
            r is Ok <==> candidates@.len() > 0,
            r is Err ==> r->Err_0 == AggrError::NoRoutes,
            (r matches Ok(sel) ==> seq![sel.plan] + sel.alternatives@ == stable_sort_by_cost(
                candidates@,
            )),
    {
        if candidates.len() == 0 {
            return Err(AggrError::NoRoutes);
        }
        let ghost all: Seq<RoutePlan> = candidates@;
        let mut rest = candidates;
        let mut sorted: Vec<RoutePlan> = Vec::new();
        let ghost mut done: Seq<RoutePlan> = Seq::empty();
        proof {
            assert(done + rest@ =~= all);
        }
        while rest.len() > 0
            invariant
                done + rest@ == all,
                sorted@ == stable_sort_by_cost(done),
            decreases rest@.len(),
        {
            let ghost pre_rest: Seq<RoutePlan> = rest@;
            let x = rest.remove(0);
            proof {
                assert(rest@ =~= pre_rest.skip(1));
            }
            insert_plan(&mut sorted, x);
            proof {
                let done2 = done.push(x);
                assert(done2.drop_last() =~= done);
                assert(done2.last() == x);
                assert(stable_sort_by_cost(done2) == insert_sorted(stable_sort_by_cost(done), x));
                done = done2;
                assert(done + rest@ =~= all);
            }
        }
        proof {
            assert(done =~= all);
            lemma_stable_sort_len(all);
        }
        let ghost sorted_all: Seq<RoutePlan> = sorted@;
        let best = sorted.remove(0);
        proof {
            assert(seq![best] + sorted@ =~= sorted_all);
        }
        Ok(RouteSelection { plan: best, alternatives: sorted })
    }

    /// Record an observed execution latency for the owned- or shared-
    /// resource path.
    ///
    /// The observation joins that path's window (bounded by
    /// `max_samples`, oldest evicted). Once the window holds at least 10
    /// samples, the path's estimate moves by `alpha_num/alpha_den` toward
    /// the window average.
    pub fn record_latency(&mut self, latency_ms: u64, uses_shared_objects: bool)
        requires
            old(self).wf(),
        ensures
            final(self).wf(),
            final(self).max_samples == old(self).max_samples,
            final(self).alpha_num == old(self).alpha_num,
            final(self).alpha_den == old(self).alpha_den,
            ({
                let oldw = if uses_shared_objects {
                    old(self).shared_latency_samples@
                } else {
                    old(self).owned_latency_samples@
                };
                let neww = if uses_shared_objects {
                    final(self).shared_latency_samples@
                } else {
                    final(self).owned_latency_samples@
                };
                let olde = if uses_shared_objects {
                    old(self).shared_object_latency_ms
                } else {
                    old(self).base_latency_ms
                };
                let newe = if uses_shared_objects {
                    final(self).shared_object_latency_ms
                } else {
                    final(self).base_latency_ms
                };
                &&& neww == if oldw.len() == old(self).max_samples {
                    oldw.skip(1).push(latency_ms)
                } else {
                    oldw.push(latency_ms)
                }
                &&& newe == if neww.len() >= 10 {
                    ewma_step(
                        olde as int,
                        sum_u64(neww) / neww.len() as int,
                        old(self).alpha_num as int,
                        old(self).alpha_den as int,
                    )
                } else {
                    olde as int
                }
            }),
            uses_shared_objects ==> final(self).base_latency_ms == old(self).base_latency_ms
                && final(self).owned_latency_samples@ == old(self).owned_latency_samples@,
            !uses_shared_objects ==> final(self).shared_object_latency_ms == old(
                self,
            ).shared_object_latency_ms && final(self).shared_latency_samples@ == old(
                self,
            ).shared_latency_samples@,
    {
        if uses_shared_objects {
            if self.shared_latency_samples.len() == self.max_samples {
                self.shared_latency_samples.remove(0);
                proof {
                    assert(self.shared_latency_samples@ =~= old(self).shared_latency_samples@.skip(
                        1,
                    ));
                }
            }
            self.shared_latency_samples.push(latency_ms);
            if self.shared_latency_samples.len() >= 10 {
                let avg: u64 = window_average(&self.shared_latency_samples, self.max_samples);
                self.shared_object_latency_ms = crate::validator::weighted_average(
                    self.shared_object_latency_ms,
                    avg,
                    self.alpha_num,
                    self.alpha_den,
                );
            }
        } else {
            if self.owned_latency_samples.len() == self.max_samples {
                self.owned_latency_samples.remove(0);
                proof {
                    assert(self.owned_latency_samples@ =~= old(self).owned_latency_samples@.skip(
                        1,
                    ));
                }
            }
            self.owned_latency_samples.push(latency_ms);
            if self.owned_latency_samples.len() >= 10 {
                let avg: u64 = window_average(&self.owned_latency_samples, self.max_samples);
                self.base_latency_ms = crate::validator::weighted_average(
                    self.base_latency_ms,
                    avg,
                    self.alpha_num,
                    self.alpha_den,
                );
            }
        }
    }

    /// The current `(owned, shared)` latency estimates.
    pub fn get_latency_estimates(&self) -> (r: (u64, u64))
        ensures
            r.0 == self.base_latency_ms,
            r.1 == self.shared_object_latency_ms,
    {
        (self.base_latency_ms, self.shared_object_latency_ms)
    }

    /// Override both latency estimates.
    pub fn update_latency_estimates(&mut self, base_ms: u64, shared_ms: u64)
        requires
            old(self).wf(),
        ensures
            final(self).wf(),
            *final(self) == (RouteSelector {
                base_latency_ms: base_ms,
                shared_object_latency_ms: shared_ms,
                ..*old(self)
            }),
    {
        self.base_latency_ms = base_ms;
        self.shared_object_latency_ms = shared_ms;
    }

    /// Current estimates, sample counts, and window averages.
    pub fn get_latency_stats(&self) -> (r: LatencyStats)
        requires
            self.wf(),
        ensures
            r.base_latency_ms == self.base_latency_ms,
            r.shared_latency_ms == self.shared_object_latency_ms,
            r.owned_samples == self.owned_latency_samples@.len(),
            r.shared_samples == self.shared_latency_samples@.len(),
            r.owned_avg == if self.owned_latency_samples@.len() == 0 {
                Option::<u64>::None
            } else {
                Some(
                    (sum_u64(self.owned_latency_samples@) / self.owned_latency_samples@.len() as int)
                        as u64,
                )
            },
            r.shared_avg == if self.shared_latency_samples@.len() == 0 {
                Option::<u64>::None
            } else {
                Some(
                    (sum_u64(self.shared_latency_samples@)
                        / self.shared_latency_samples@.len() as int) as u64,
                )
            },
    {
        let owned_avg: Option<u64> = if self.owned_latency_samples.len() == 0 {
            None
        } else {
            Some(window_average(&self.owned_latency_samples, self.max_samples))
        };
        let shared_avg: Option<u64> = if self.shared_latency_samples.len() == 0 {
            None
        } else {
            Some(window_average(&self.shared_latency_samples, self.max_samples))
        };
        LatencyStats {
            base_latency_ms: self.base_latency_ms,
            shared_latency_ms: self.shared_object_latency_ms,
            owned_samples: self.owned_latency_samples.len(),
            shared_samples: self.shared_latency_samples.len(),
            owned_avg,
            shared_avg,
        }
    }
}

/// Floor of the average of a non-empty bounded sample window.
fn window_average(samples: &Vec<u64>, cap: usize) -> (r: u64)
    requires
        0 < samples@.len() <= cap + 1,
        cap <= 1000,
    ensures
        r == sum_u64(samples@) / samples@.len() as int,
{
    let mut total: u128 = 0;
    let mut i: usize = 0;
    proof {
        lemma_sum_bound(samples@);
        assert(samples@.take(0) =~= Seq::<u64>::empty());
    }
    while i < samples.len()
        invariant
            i <= samples@.len(),
            samples@.len() <= 1001,
            total == sum_u64(samples@.take(i as int)),
            total <= i * (u64::MAX as int),
        decreases samples@.len() - i,
    {
        proof {
            assert(samples@.take(i + 1).drop_last() =~= samples@.take(i as int));
            assert(samples@.take(i + 1).last() == samples@[i as int]);
            assert(i * (u64::MAX as int) + u64::MAX == (i + 1) * (u64::MAX as int))
                by (nonlinear_arith);
            assert((i + 1) * (u64::MAX as int) <= 1001 * (u64::MAX as int)) by (nonlinear_arith)
                requires
                    i + 1 <= 1001,
            ;
        }
        total = total + (samples[i] as u128);
        i = i + 1;
    }
    proof {
        assert(samples@.take(samples@.len() as int) =~= samples@);
        let s = sum_u64(samples@);
        let n = samples@.len() as int;
        lemma_div_is_ordered(s, n * (u64::MAX as int), n);
        lemma_div_multiples_vanish(u64::MAX as int, n);
        lemma_mul_is_commutative(n, u64::MAX as int);
    }
    (total / (samples.len() as u128)) as u64
}

} // verus!
