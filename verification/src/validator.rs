//! Endpoint ranking by exponentially-weighted confirmation latency.
//!
//! The smoothing factor is the rational `alpha_num / alpha_den`; latencies
//! are integer milliseconds. Time is passed in explicitly.

use vstd::prelude::*;
use vstd::arithmetic::power::{pow, lemma_pow0};
use vstd::arithmetic::mul::{
    lemma_mul_inequality, lemma_mul_is_commutative, lemma_mul_is_distributive_add,
};
use vstd::arithmetic::div_mod::{lemma_div_is_ordered, lemma_div_multiples_vanish};

verus! {

/// Identifier of a submission endpoint.
#[derive(Debug, Clone, Hash, PartialEq, Eq)]
pub struct ValidatorId {
    pub endpoint: String,
}

/// Latency statistics for one endpoint.
#[derive(Debug, Clone, PartialEq, Eq, Structural)]
pub struct ValidatorStats {
    /// EWMA of observed effects latency, in milliseconds.
    pub effects_ewma_ms: u64,
    /// Number of observations folded into the EWMA.
    pub observations: u64,
    /// When the last observation arrived.
    pub last_update_ms: u64,
    /// Whether the endpoint is considered healthy.
    pub healthy: bool,
}

/// One EWMA update: `(num·x + (den−num)·prev) / den`, rounded down.
pub open spec fn ewma_step(prev: int, x: int, num: int, den: int) -> int {
    (num * x + (den - num) * prev) / den
}

/// `a − b`, floored at zero.
pub open spec fn sat_sub(a: int, b: int) -> int {
    if a >= b {
        a - b
    } else {
        0
    }
}

impl ValidatorStats {
    /// The neutral prior: 500 ms, no observations, healthy.
    pub fn new(now_ms: u64) -> (r: ValidatorStats)
        ensures
            r == (ValidatorStats {
                effects_ewma_ms: 500,
                observations: 0,
                last_update_ms: now_ms,
                healthy: true,
            }),
    {
        ValidatorStats { effects_ewma_ms: 500, observations: 0, last_update_ms: now_ms, healthy: true }
    }

    /// Fold one observation into the EWMA: the first observation replaces
    /// the prior, later ones move it by `alpha_num/alpha_den` toward the
    /// observation.
    pub fn update_ewma(&mut self, observed_ms: u64, alpha_num: u64, alpha_den: u64, now_ms: u64)
        requires
            0 < alpha_num <= alpha_den,
            old(self).observations < u64::MAX,
        ensures
            final(self).effects_ewma_ms == if old(self).observations == 0 {
                observed_ms as int
            } else {
                ewma_step(
                    old(self).effects_ewma_ms as int,
                    observed_ms as int,
                    alpha_num as int,
                    alpha_den as int,
                )
            },
            final(self).observations == old(self).observations + 1,
            final(self).last_update_ms == now_ms,
            final(self).healthy == old(self).healthy,
    {
        if self.observations == 0 {
            self.effects_ewma_ms = observed_ms;
        } else {
            self.effects_ewma_ms = weighted_average(
                self.effects_ewma_ms,
                observed_ms,
                alpha_num,
                alpha_den,
            );
        }
        self.observations = self.observations + 1;
        self.last_update_ms = now_ms;
    }
}

/// `(num·x + (den−num)·prev) / den`, rounded down; always lies at or below
/// the larger of the two inputs.
pub(crate) fn weighted_average(prev: u64, x: u64, num: u64, den: u64) -> (r: u64)
    requires
        0 < num <= den,
    ensures
        r == ewma_step(prev as int, x as int, num as int, den as int),
{
    let m: u64 = if x >= prev {
        x
    } else {
        prev
    };
    proof {
        let numi = num as int;
        let deni = den as int;
        let xi = x as int;
        let pi = prev as int;
        let mi = m as int;
        lemma_mul_inequality(xi, mi, numi);
        lemma_mul_is_commutative(xi, numi);
        lemma_mul_is_commutative(mi, numi);
        lemma_mul_inequality(pi, mi, deni - numi);
        lemma_mul_is_commutative(pi, deni - numi);
        lemma_mul_is_commutative(mi, deni - numi);
        assert(numi * mi + (deni - numi) * mi == deni * mi) by {
            lemma_mul_is_commutative(mi, numi);
            lemma_mul_is_distributive_add(mi, numi, deni - numi);
            lemma_mul_is_commutative(mi, deni);
        }
        assert(numi * xi + (deni - numi) * pi <= deni * mi);
        vstd::arithmetic::mul::lemma_mul_upper_bound(deni, u64::MAX as int, mi, u64::MAX as int);
        lemma_div_is_ordered(numi * xi + (deni - numi) * pi, deni * mi, deni);
        lemma_div_multiples_vanish(mi, deni);
    }
    let sum: u128 = (num as u128) * (x as u128) + ((den - num) as u128) * (prev as u128);
    let q: u128 = sum / (den as u128);
    q as u64
}

/// The EWMA after a sequence of observations, in exact arithmetic, scaled
/// by `den^(n−1)` so that every term is an integer. Matches `ewma_step`
/// applied left to right, with the first observation replacing the prior.
pub open spec fn ewma_scaled(obs: Seq<int>, num: int, den: int) -> int
    decreases obs.len(),
{
    if obs.len() == 0 {
        0
    } else if obs.len() == 1 {
        obs[0]
    } else {
        num * pow(den, (obs.len() - 2) as nat) * obs.last() + (den - num) * ewma_scaled(
            obs.drop_last(),
            num,
            den,
        )
    }
}

/// The tail of the closed form: `Σ_{i≥1} num·(den−num)^(n−1−i)·den^(i−1)·xᵢ`.
pub open spec fn ewma_closed_tail(obs: Seq<int>, num: int, den: int, i: int) -> int
    decreases obs.len() - i,
{
    if i < 1 || i >= obs.len() {
        0
    } else {
        num * pow(den - num, (obs.len() - 1 - i) as nat) * pow(den, (i - 1) as nat) * obs[i]
            + ewma_closed_tail(obs, num, den, i + 1)
    }
}

/// The closed form of the EWMA after observations `x₀..x_{n−1}` with
/// `x₀` replacing the prior, scaled by `den^(n−1)`:
/// `(den−num)^(n−1)·x₀ + Σ_{i≥1} num·(den−num)^(n−1−i)·den^(i−1)·xᵢ`.
pub open spec fn ewma_closed_form(obs: Seq<int>, num: int, den: int) -> int {
    pow(den - num, (obs.len() - 1) as nat) * obs[0] + ewma_closed_tail(obs, num, den, 1)
}

proof fn lemma_tail_step(obs: Seq<int>, num: int, den: int, i: int)
    requires
        obs.len() >= 2,
        1 <= i <= obs.len(),
    ensures
        ewma_closed_tail(obs, num, den, i) == (den - num) * ewma_closed_tail(
            obs.drop_last(),
            num,
            den,
            i,
        ) + if i <= obs.len() - 1 {
            num * pow(den, (obs.len() - 2) as nat) * obs[obs.len() - 1]
        } else {
            0
        },
    decreases obs.len() - i,
{
    let n = obs.len() as int;
    let pre = obs.drop_last();
    if i == n {
        assert(ewma_closed_tail(obs, num, den, i) == 0);
        assert(ewma_closed_tail(pre, num, den, i) == 0);
    } else if i == n - 1 {
        assert(ewma_closed_tail(obs, num, den, n) == 0);
        assert(ewma_closed_tail(pre, num, den, i) == 0);
        lemma_pow0(den - num);
        assert(ewma_closed_tail(obs, num, den, i) == num * 1 * pow(den, (i - 1) as nat) * obs[i]
            + 0);
        let q = pow(den, (n - 2) as nat);
        let x = obs[n - 1];
        assert(num * 1 * q * x == num * q * x) by (nonlinear_arith);
    } else {
        lemma_tail_step(obs, num, den, i + 1);
        let p2 = pow(den - num, (n - 2 - i) as nat);
        let p1 = pow(den - num, (n - 1 - i) as nat);
        assert(p1 == (den - num) * p2) by {
            vstd::arithmetic::power::lemma_pow_adds(den - num, 1nat, (n - 2 - i) as nat);
            vstd::arithmetic::power::lemma_pow1(den - num);
            assert((n - 1 - i) as nat == 1nat + (n - 2 - i) as nat);
        }
        let q = pow(den, (i - 1) as nat);
        let qlast = pow(den, (n - 2) as nat);
        let x = obs[i];
        let xlast = obs[n - 1];
        assert(pre[i] == obs[i]);
        let tpre = ewma_closed_tail(pre, num, den, i + 1);
        assert(ewma_closed_tail(pre, num, den, i) == num * pow(
            den - num,
            (pre.len() - 1 - i) as nat,
        ) * q * pre[i] + tpre);
        assert((pre.len() - 1 - i) as nat == (n - 2 - i) as nat);
        assert(ewma_closed_tail(obs, num, den, i) == num * p1 * q * x + ewma_closed_tail(
            obs,
            num,
            den,
            i + 1,
        ));
        assert(ewma_closed_tail(obs, num, den, i + 1) == (den - num) * ewma_closed_tail(
            pre,
            num,
            den,
            i + 1,
        ) + num * qlast * xlast);
        assert(num * p1 * q * x == (den - num) * (num * p2 * q * x)) by (nonlinear_arith)
            requires
                p1 == (den - num) * p2,
        ;
        assert((den - num) * (num * p2 * q * x + tpre) == (den - num) * (num * p2 * q * x) + (den
            - num) * tpre) by {
            lemma_mul_is_distributive_add(den - num, num * p2 * q * x, tpre);
        }
    }
}

/// The per-step EWMA recurrence equals the closed form: after observations
/// `x₀..x_{n−1}` with `x₀` as the first update, the EWMA (scaled by
/// `den^(n−1)` to keep it an integer) is
/// `(den−num)^(n−1)·x₀ + Σ_{i≥1} num·(den−num)^(n−1−i)·den^(i−1)·xᵢ`.
pub proof fn lemma_ewma_closed_form(obs: Seq<int>, num: int, den: int)
    requires
        obs.len() >= 1,
    ensures
        ewma_scaled(obs, num, den) == ewma_closed_form(obs, num, den),
    decreases obs.len(),
{
    let n = obs.len() as int;
    if n == 1 {
        lemma_pow0(den - num);
        assert(ewma_closed_tail(obs, num, den, 1) == 0);
        assert(ewma_closed_form(obs, num, den) == 1 * obs[0] + 0);
        assert(1 * obs[0] == obs[0]) by (nonlinear_arith);
    } else {
        let pre = obs.drop_last();
        lemma_ewma_closed_form(pre, num, den);
        lemma_tail_step(obs, num, den, 1);
        let a = pow(den - num, (n - 2) as nat);
        let b = pow(den - num, (n - 1) as nat);
        assert(b == (den - num) * a) by {
            vstd::arithmetic::power::lemma_pow_adds(den - num, 1nat, (n - 2) as nat);
            vstd::arithmetic::power::lemma_pow1(den - num);
            assert((n - 1) as nat == 1nat + (n - 2) as nat);
        }
        let x0 = obs[0];
        assert(pre[0] == obs[0]);
        let tpre = ewma_closed_tail(pre, num, den, 1);
        let last_term = num * pow(den, (n - 2) as nat) * obs[n - 1];
        assert(ewma_closed_form(obs, num, den) == b * x0 + ewma_closed_tail(obs, num, den, 1));
        assert(ewma_closed_tail(obs, num, den, 1) == (den - num) * tpre + last_term);
        assert(ewma_closed_form(pre, num, den) == a * x0 + tpre);
        assert(b * x0 == (den - num) * (a * x0)) by (nonlinear_arith)
            requires
                b == (den - num) * a,
        ;
        assert((den - num) * (a * x0 + tpre) == (den - num) * (a * x0) + (den - num) * tpre) by {
            lemma_mul_is_distributive_add(den - num, a * x0, tpre);
        }
        assert(ewma_scaled(obs, num, den) == last_term + (den - num) * ewma_scaled(pre, num, den));
        assert(ewma_scaled(pre, num, den) == a * x0 + tpre);
    }
}

/// Whether an endpoint's statistics make it eligible for selection at
/// `now`: healthy, enough observations, and recently updated.
pub open spec fn stats_eligible(
    s: ValidatorStats,
    now: int,
    max_staleness_secs: int,
    min_observations: int,
) -> bool {
    &&& s.healthy
    &&& s.observations >= min_observations
    &&& sat_sub(now, s.last_update_ms as int) < max_staleness_secs * 1000
}

/// Endpoint ranker: per-endpoint statistics keyed by endpoint name.
pub struct ValidatorSelector {
    /// Statistics per endpoint, in registration order.
    pub validators: Vec<(String, ValidatorStats)>,
    /// Smoothing factor numerator.
    pub alpha_num: u64,
    /// Smoothing factor denominator.
    pub alpha_den: u64,
    /// Statistics older than this are stale.
    pub max_staleness_secs: u64,
    /// Observations needed before an endpoint is trusted.
    pub min_observations: u64,
}

impl ValidatorSelector {
    pub open spec fn wf(self) -> bool {
        &&& crate::sponsorship::unique_keys(self.validators@)
        &&& 0 < self.alpha_num <= self.alpha_den
    }

    /// Whether the entry at `i` is eligible at `now`.
    pub open spec fn spec_eligible(self, now: int, i: int) -> bool {
        stats_eligible(
            self.validators@[i].1,
            now,
            self.max_staleness_secs as int,
            self.min_observations as int,
        )
    }

    /// `i` is the eligible entry with the smallest EWMA (first on ties).
    pub open spec fn spec_best_eligible(self, now: int, i: int) -> bool {
        &&& 0 <= i < self.validators@.len()
        &&& self.spec_eligible(now, i)
        &&& forall|j: int|
            0 <= j < self.validators@.len() && #[trigger] self.spec_eligible(now, j) ==> (
            self.validators@[i].1.effects_ewma_ms < self.validators@[j].1.effects_ewma_ms || (
            self.validators@[i].1.effects_ewma_ms == self.validators@[j].1.effects_ewma_ms && i
                <= j))
    }

    /// `i` is the healthy entry with the smallest EWMA (first on ties).
    pub open spec fn spec_best_healthy(self, i: int) -> bool {
        &&& 0 <= i < self.validators@.len()
        &&& self.validators@[i].1.healthy
        &&& forall|j: int|
            0 <= j < self.validators@.len() && (#[trigger] self.validators@[j]).1.healthy ==> (
            self.validators@[i].1.effects_ewma_ms < self.validators@[j].1.effects_ewma_ms || (
            self.validators@[i].1.effects_ewma_ms == self.validators@[j].1.effects_ewma_ms && i
                <= j))
    }

    /// A ranker with the given smoothing rational, staleness bound and
    /// observation floor, tracking no endpoints yet.
    pub fn new(alpha_num: u64, alpha_den: u64, max_staleness_secs: u64, min_observations: u64) -> (r:
        ValidatorSelector)
        requires
            0 < alpha_num <= alpha_den,
        ensures
            r.wf(),
            r.validators@.len() == 0,
            r.alpha_num == alpha_num,
            r.alpha_den == alpha_den,
            r.max_staleness_secs == max_staleness_secs,
            r.min_observations == min_observations,
    {
        ValidatorSelector {
            validators: Vec::new(),
            alpha_num,
            alpha_den,
            max_staleness_secs,
            min_observations,
        }
    }

    /// The default ranker: smoothing 1/5, five-minute staleness bound,
    /// five observations minimum.
    pub fn new_default() -> (r: ValidatorSelector)
        ensures
            r.wf(),
            r.validators@.len() == 0,
            r.alpha_num == 1 && r.alpha_den == 5,
            r.max_staleness_secs == 300,
            r.min_observations == 5,
    {
        ValidatorSelector::new(1, 5, 300, 5)
    }

    /// Register an endpoint with the neutral prior; a known endpoint is
    /// left untouched.
    pub fn register(&mut self, endpoint: String, now_ms: u64)
        requires
            old(self).wf(),
        ensures
            final(self).wf(),
            final(self).alpha_num == old(self).alpha_num,
            final(self).alpha_den == old(self).alpha_den,
            final(self).max_staleness_secs == old(self).max_staleness_secs,
            final(self).min_observations == old(self).min_observations,
            crate::sponsorship::find_key(old(self).validators@, endpoint@) is Some ==> final(self).validators@ == old(self).validators@,
            crate::sponsorship::find_key(old(self).validators@, endpoint@) is None ==> final(self).validators@ == old(self).validators@.push(
                (endpoint, ValidatorStats {
                    effects_ewma_ms: 500,
                    observations: 0,
                    last_update_ms: now_ms,
                    healthy: true,
                }),
            ),
    {
        match find_validator(&self.validators, endpoint.as_str()) {
            Some(_) => {},
            None => {
                self.validators.push((endpoint, ValidatorStats::new(now_ms)));
            },
        }
    }

    /// Record an effects-latency observation for `endpoint` at `now_ms`;
    /// an unregistered endpoint is ignored.
    pub fn record_effects_time(&mut self, endpoint: &str, effects_time_ms: u64, now_ms: u64)
        requires
            old(self).wf(),
            forall|i: int|
                0 <= i < old(self).validators@.len() ==> (#[trigger] old(self).validators@[i]).1.observations < u64::MAX,
        ensures
            final(self).wf(),
            final(self).alpha_num == old(self).alpha_num,
            final(self).alpha_den == old(self).alpha_den,
            final(self).max_staleness_secs == old(self).max_staleness_secs,
            final(self).min_observations == old(self).min_observations,
            crate::sponsorship::find_key(old(self).validators@, endpoint@) is None ==> final(self).validators@ == old(self).validators@,
            crate::sponsorship::find_key(old(self).validators@, endpoint@) matches Some(i)
                ==> final(self).validators@.len() == old(self).validators@.len() && (forall|j: int|
                0 <= j < old(self).validators@.len() && j != i ==> #[trigger] final(self).validators@[j] == old(self).validators@[j]) && final(self).validators@[i].0 == old(self).validators@[i].0 && final(self).validators@[i].1 == (ValidatorStats {
                effects_ewma_ms: (if old(self).validators@[i].1.observations == 0 {
                    effects_time_ms as int
                } else {
                    ewma_step(
                        old(self).validators@[i].1.effects_ewma_ms as int,
                        effects_time_ms as int,
                        old(self).alpha_num as int,
                        old(self).alpha_den as int,
                    )
                }) as u64,
                observations: (old(self).validators@[i].1.observations + 1) as u64,
                last_update_ms: now_ms,
                healthy: old(self).validators@[i].1.healthy,
            }),
    {
        match find_validator(&self.validators, endpoint) {
            Some(i) => {
                let num = self.alpha_num;
                let den = self.alpha_den;
                let pair: &mut (String, ValidatorStats) = &mut self.validators[i];
                pair.1.update_ewma(effects_time_ms, num, den, now_ms);
            },
            None => {},
        }
    }

    /// Mark `endpoint` unhealthy; unknown endpoints are ignored.
    pub fn mark_unhealthy(&mut self, endpoint: &str)
        requires
            old(self).wf(),
        ensures
            final(self).wf(),
            crate::sponsorship::find_key(old(self).validators@, endpoint@) matches Some(i)
                ==> final(self).validators@ == old(self).validators@.update(
                i,
                (old(self).validators@[i].0, ValidatorStats {
                    healthy: false,
                    ..old(self).validators@[i].1
                }),
            ),
            crate::sponsorship::find_key(old(self).validators@, endpoint@) is None ==> final(self).validators@ == old(self).validators@,
            final(self).alpha_num == old(self).alpha_num && final(self).alpha_den == old(self).alpha_den,
            final(self).max_staleness_secs == old(self).max_staleness_secs,
            final(self).min_observations == old(self).min_observations,
    {
        match find_validator(&self.validators, endpoint) {
            Some(i) => {
                let pair: &mut (String, ValidatorStats) = &mut self.validators[i];
                pair.1.healthy = false;
            },
            None => {},
        }
    }

    /// Mark `endpoint` healthy; unknown endpoints are ignored.
    pub fn mark_healthy(&mut self, endpoint: &str)
        requires
            old(self).wf(),
        ensures
            final(self).wf(),
            crate::sponsorship::find_key(old(self).validators@, endpoint@) matches Some(i)
                ==> final(self).validators@ == old(self).validators@.update(
                i,
                (old(self).validators@[i].0, ValidatorStats {
                    healthy: true,
                    ..old(self).validators@[i].1
                }),
            ),
            crate::sponsorship::find_key(old(self).validators@, endpoint@) is None ==> final(self).validators@ == old(self).validators@,
            final(self).alpha_num == old(self).alpha_num && final(self).alpha_den == old(self).alpha_den,
            final(self).max_staleness_secs == old(self).max_staleness_secs,
            final(self).min_observations == old(self).min_observations,
    {
        match find_validator(&self.validators, endpoint) {
            Some(i) => {
                let pair: &mut (String, ValidatorStats) = &mut self.validators[i];
                pair.1.healthy = true;
            },
            None => {},
        }
    }

    /// Select the eligible endpoint with the smallest EWMA (first
    /// registered on ties). With no eligible endpoint, fall back to the
    /// healthy endpoint with the smallest EWMA; with none healthy, `None`.
    pub fn select_best(&self, now_ms: u64) -> (r: Option<String>)
        requires
            self.wf(),
        ensures
            r is None <==> !(exists|j: int|
                0 <= j < self.validators@.len() && (#[trigger] self.validators@[j]).1.healthy),
            (exists|j: int|
                0 <= j < self.validators@.len() && #[trigger] self.spec_eligible(
                    now_ms as int,
                    j,
                )) ==> (exists|i: int|
                #[trigger] self.spec_best_eligible(now_ms as int, i) && (r matches Some(e) && e@
                    == self.validators@[i].0@)),
            !(exists|j: int|
                0 <= j < self.validators@.len() && #[trigger] self.spec_eligible(now_ms as int, j))
                && (exists|j: int|
                0 <= j < self.validators@.len() && (#[trigger] self.validators@[j]).1.healthy) ==> (
            exists|i: int|
                #[trigger] self.spec_best_healthy(i) && (r matches Some(e) && e@
                    == self.validators@[i].0@)),
    {
        let mut best_elig: Option<usize> = None;
        let mut best_heal: Option<usize> = None;
        let mut i: usize = 0;
        while i < self.validators.len()
            invariant
                self.wf(),
                i <= self.validators@.len(),
                match best_elig {
                    Some(b) => b < i && self.spec_eligible(now_ms as int, b as int) && (forall|
                        j: int,
                    |
                        0 <= j < i && #[trigger] self.spec_eligible(now_ms as int, j) ==> (
                        self.validators@[b as int].1.effects_ewma_ms
                            < self.validators@[j].1.effects_ewma_ms || (self.validators@[
                        b as int].1.effects_ewma_ms == self.validators@[j].1.effects_ewma_ms && b
                            <= j))),
                    None => forall|j: int|
                        0 <= j < i ==> !(#[trigger] self.spec_eligible(now_ms as int, j)),
                },
                match best_heal {
                    Some(b) => b < i && self.validators@[b as int].1.healthy && (forall|j: int|
                        0 <= j < i && (#[trigger] self.validators@[j]).1.healthy ==> (
                        self.validators@[b as int].1.effects_ewma_ms
                            < self.validators@[j].1.effects_ewma_ms || (self.validators@[
                        b as int].1.effects_ewma_ms == self.validators@[j].1.effects_ewma_ms && b
                            <= j))),
                    None => forall|j: int|
                        0 <= j < i ==> !(#[trigger] self.validators@[j]).1.healthy,
                },
            decreases self.validators@.len() - i,
        {
            let s: &ValidatorStats = &self.validators[i].1;
            let age: u64 = if now_ms >= s.last_update_ms {
                now_ms - s.last_update_ms
            } else {
                0
            };
            let is_elig: bool = s.healthy && s.observations >= self.min_observations && (
            age as u128) < (self.max_staleness_secs as u128) * 1000;
            if is_elig {
                best_elig = match best_elig {
                    Some(b) => {
                        if s.effects_ewma_ms < self.validators[b].1.effects_ewma_ms {
                            Some(i)
                        } else {
                            Some(b)
                        }
                    },
                    None => Some(i),
                };
            }
            if s.healthy {
                best_heal = match best_heal {
                    Some(b) => {
                        if s.effects_ewma_ms < self.validators[b].1.effects_ewma_ms {
                            Some(i)
                        } else {
                            Some(b)
                        }
                    },
                    None => Some(i),
                };
            }
            i = i + 1;
        }
        match best_elig {
            Some(b) => {
                proof {
                    assert(self.spec_best_eligible(now_ms as int, b as int));
                    assert(self.validators@[b as int].1.healthy);
                }
                Some(self.validators[b].0.clone())
            },
            None => match best_heal {
                Some(b) => {
                    proof {
                        assert(self.spec_best_healthy(b as int));
                        assert(self.validators@[b as int].1.healthy);
                    }
                    Some(self.validators[b].0.clone())
                },
                None => None,
            },
        }
    }

    /// The endpoint a submission should use: the ranker's choice, or the
    /// startup-configured default when no endpoint is healthy.
    pub fn endpoint_for_submission(&self, now_ms: u64, default_endpoint: &str) -> (r: String)
        requires
            self.wf(),
        ensures
            !(exists|j: int|
                0 <= j < self.validators@.len() && (#[trigger] self.validators@[j]).1.healthy)
                ==> r@ == default_endpoint@,
            (exists|j: int|
                0 <= j < self.validators@.len() && #[trigger] self.spec_eligible(
                    now_ms as int,
                    j,
                )) ==> (exists|i: int|
                #[trigger] self.spec_best_eligible(now_ms as int, i) && r@
                    == self.validators@[i].0@),
    {
        match self.select_best(now_ms) {
            Some(e) => e,
            None => default_endpoint.to_owned(),
        }
    }

    /// Current statistics of every endpoint, in registration order.
    pub fn stats(&self) -> (r: Vec<(String, (u64, u64, bool))>)
        ensures
            r@.len() == self.validators@.len(),
            forall|i: int|
                0 <= i < r@.len() ==> (#[trigger] r@[i]).0@ == self.validators@[i].0@ && r@[i].1
                    == ((self.validators@[i].1.effects_ewma_ms, self.validators@[i].1.observations,
                self.validators@[i].1.healthy)),
    {
        let mut r: Vec<(String, (u64, u64, bool))> = Vec::new();
        let mut i: usize = 0;
        while i < self.validators.len()
            invariant
                i <= self.validators@.len(),
                r@.len() == i,
                forall|j: int|
                    0 <= j < i ==> (#[trigger] r@[j]).0@ == self.validators@[j].0@ && r@[j].1 == ((
                    self.validators@[j].1.effects_ewma_ms,
                    self.validators@[j].1.observations,
                    self.validators@[j].1.healthy,
                )),
            decreases self.validators@.len() - i,
        {
            let entry = &self.validators[i];
            r.push(
                (entry.0.clone(), (entry.1.effects_ewma_ms, entry.1.observations, entry.1.healthy)),
            );
            i = i + 1;
        }
        r
    }
}

/// Index of `endpoint` in the table, if registered.
fn find_validator(v: &Vec<(String, ValidatorStats)>, endpoint: &str) -> (r: Option<usize>)
    requires
        crate::sponsorship::unique_keys(v@),
    ensures
        r matches Some(i) ==> crate::sponsorship::find_key(v@, endpoint@) == Some(i as int) && i
            < v@.len() && v@[i as int].0@ == endpoint@,
        r is None ==> crate::sponsorship::find_key(v@, endpoint@) is None,
{
    let key_owned: String = endpoint.to_owned();
    let mut i: usize = 0;
    while i < v.len()
        invariant
            i <= v@.len(),
            crate::sponsorship::unique_keys(v@),
            key_owned@ == endpoint@,
            forall|j: int| 0 <= j < i ==> (#[trigger] v@[j]).0@ != endpoint@,
        decreases v@.len() - i,
    {
        if v[i].0 == key_owned {
            return Some(i);
        }
        i = i + 1;
    }
    None
}

} // verus!
