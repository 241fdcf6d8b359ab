//! Sponsored-transaction admission: budgets, abuse metrics, and the
//! sponsorship manager's decision state.
//!
//! Time is passed in explicitly as milliseconds from a monotonic clock.

use vstd::prelude::*;
use crate::errors::AggrError;

verus! {

/// Association-list lookup: index of the first entry whose key equals `key`.
pub open spec fn find_key<T>(s: Seq<(String, T)>, key: Seq<char>) -> Option<int> {
    if exists|i: int| 0 <= i < s.len() && (#[trigger] s[i]).0@ == key {
        Some(choose|i: int| 0 <= i < s.len() && (#[trigger] s[i]).0@ == key)
    } else {
        None
    }
}

/// No two entries share a key.
pub open spec fn unique_keys<T>(s: Seq<(String, T)>) -> bool {
    forall|i: int, j: int| 0 <= i < j < s.len() ==> (#[trigger] s[i]).0@ != (#[trigger] s[j]).0@
}

/// Index of the first entry keyed `key`, if any.
fn find_idx<T>(v: &Vec<(String, T)>, key: &str) -> (r: Option<usize>)
    requires
        unique_keys(v@),
    ensures
        r matches Some(i) ==> find_key(v@, key@) == Some(i as int) && i < v@.len() && v@[
            i as int
        ].0@ == key@,
        r is None ==> find_key(v@, key@) is None,
{
    let key_owned: String = key.to_owned();
    let mut i: usize = 0;
    while i < v.len()
        invariant
            i <= v@.len(),
            unique_keys(v@),
            key_owned@ == key@,
            forall|j: int| 0 <= j < i ==> (#[trigger] v@[j]).0@ != key@,
        decreases v@.len() - i,
    {
        if v[i].0 == key_owned {
            return Some(i);
        }
        i = i + 1;
    }
    None
}

/// Spending budget for one user or route class.
#[derive(Debug, Clone)]
pub struct Budget {
    /// Total budget allocated for the window.
    pub total_budget: u64,
    /// Amount spent so far in the current window.
    pub spent: u64,
    /// Window after which `spent` resets; `None` means no reset.
    pub window_ms: Option<u64>,
    /// When the current window began.
    pub last_reset_ms: u64,
    /// Largest amount a single transaction may spend.
    pub per_tx_limit: u64,
}

/// Whether the budget's window has expired at `now`.
pub open spec fn budget_window_expired(b: Budget, now: int) -> bool {
    b.window_ms matches Some(w) && now - b.last_reset_ms >= w
}

/// The spent amount an observer at `now` sees: zero once the window expired.
pub open spec fn spent_after_reset(b: Budget, now: int) -> int {
    if budget_window_expired(b, now) {
        0
    } else {
        b.spent as int
    }
}

/// Whether the budget admits spending `amount` at `now`.
pub open spec fn budget_allows(b: Budget, amount: int, now: int) -> bool {
    amount <= b.per_tx_limit && spent_after_reset(b, now) + amount <= b.total_budget
}

impl Budget {
    /// A fresh budget with nothing spent, whose window starts at `now_ms`.
    pub fn new(total_budget: u64, per_tx_limit: u64, window_ms: Option<u64>, now_ms: u64) -> (r:
        Budget)
        ensures
            r == (Budget {
                total_budget,
                spent: 0,
                window_ms,
                last_reset_ms: now_ms,
                per_tx_limit,
            }),
    {
        Budget { total_budget, spent: 0, window_ms, last_reset_ms: now_ms, per_tx_limit }
    }

    /// Whether spending `amount` is admitted at `now_ms`.
    ///
    /// If the window expired, `spent` resets to zero and the window restarts
    /// first, so an admission check at or past `last_reset + window` always
    /// observes `spent == 0`. Admission then requires the amount to be
    /// within the per-transaction limit and the budget total.
    pub fn can_spend(&mut self, amount: u64, now_ms: u64) -> (r: bool)
        ensures
            final(self).total_budget == old(self).total_budget,
            final(self).per_tx_limit == old(self).per_tx_limit,
            final(self).window_ms == old(self).window_ms,
            budget_window_expired(*old(self), now_ms as int) ==> final(self).spent == 0 && final(self).last_reset_ms == now_ms,
            !budget_window_expired(*old(self), now_ms as int) ==> final(self).spent == old(
                self,
            ).spent && final(self).last_reset_ms == old(self).last_reset_ms,
            r <==> budget_allows(*old(self), amount as int, now_ms as int),
            r ==> final(self).spent + amount <= final(self).total_budget,
    {
        match self.window_ms {
            Some(w) => {
                if now_ms >= self.last_reset_ms && now_ms - self.last_reset_ms >= w {
                    self.spent = 0;
                    self.last_reset_ms = now_ms;
                }
            },
            None => {},
        }
        if amount > self.per_tx_limit {
            return false;
        }
        (self.spent as u128) + (amount as u128) <= (self.total_budget as u128)
    }

    /// Record spending of `amount`.
    pub fn spend(&mut self, amount: u64)
        requires
            old(self).spent + amount <= u64::MAX,
        ensures
            *final(self) == (Budget { spent: (old(self).spent + amount) as u64, ..*old(self) }),
    {
        self.spent = self.spent + amount;
    }

    /// Budget left in the current window, never below zero.
    pub fn remaining(&self) -> (r: u64)
        ensures
            r == if self.spent <= self.total_budget {
                self.total_budget - self.spent
            } else {
                0int
            },
    {
        if self.spent <= self.total_budget {
            self.total_budget - self.spent
        } else {
            0
        }
    }
}

/// Per-user abuse counters over a sliding window.
#[derive(Debug, Clone)]
pub struct AbuseMetrics {
    /// Transactions recorded in the current window.
    pub tx_count: u64,
    /// Gas recorded in the current window.
    pub gas_spent: u64,
    /// When the current window began.
    pub window_start_ms: u64,
    /// Window width.
    pub window_duration_ms: u64,
}

/// Whether the abuse window has expired at `now`.
pub open spec fn abuse_window_expired(m: AbuseMetrics, now: int) -> bool {
    now - m.window_start_ms >= m.window_duration_ms
}

/// Whether the counters stay within the configured limits at `now`.
pub open spec fn abuse_allows(m: AbuseMetrics, max_tx: int, max_gas: int, now: int) -> bool {
    abuse_window_expired(m, now) || (m.tx_count <= max_tx && m.gas_spent <= max_gas)
}

/// The counters after recording one transaction of `gas` at `now`:
/// reset first when the window expired, then counted.
pub open spec fn abuse_after_record(m: AbuseMetrics, gas: int, now: int) -> AbuseMetrics {
    if abuse_window_expired(m, now) {
        AbuseMetrics {
            tx_count: 1,
            gas_spent: gas as u64,
            window_start_ms: now as u64,
            window_duration_ms: m.window_duration_ms,
        }
    } else {
        AbuseMetrics {
            tx_count: (m.tx_count + 1) as u64,
            gas_spent: (m.gas_spent + gas) as u64,
            ..m
        }
    }
}

impl AbuseMetrics {
    /// Fresh counters whose window starts at `now_ms`.
    pub fn new(window_duration_ms: u64, now_ms: u64) -> (r: AbuseMetrics)
        ensures
            r == (AbuseMetrics {
                tx_count: 0,
                gas_spent: 0,
                window_start_ms: now_ms,
                window_duration_ms,
            }),
    {
        AbuseMetrics { tx_count: 0, gas_spent: 0, window_start_ms: now_ms, window_duration_ms }
    }

    /// Record one transaction spending `gas` at `now_ms`; counters reset
    /// first when the window has expired.
    pub fn record_tx(&mut self, gas: u64, now_ms: u64)
        requires
            old(self).tx_count < u64::MAX,
            old(self).gas_spent + gas <= u64::MAX,
        ensures
            final(self).window_duration_ms == old(self).window_duration_ms,
            abuse_window_expired(*old(self), now_ms as int) ==> *final(self) == (AbuseMetrics {
                tx_count: 1,
                gas_spent: gas,
                window_start_ms: now_ms,
                window_duration_ms: old(self).window_duration_ms,
            }),
            !abuse_window_expired(*old(self), now_ms as int) ==> *final(self) == (AbuseMetrics {
                tx_count: (old(self).tx_count + 1) as u64,
                gas_spent: (old(self).gas_spent + gas) as u64,
                ..*old(self)
            }),
    {
        if now_ms >= self.window_start_ms && now_ms - self.window_start_ms
            >= self.window_duration_ms {
            self.tx_count = 0;
            self.gas_spent = 0;
            self.window_start_ms = now_ms;
        }
        self.tx_count = self.tx_count + 1;
        self.gas_spent = self.gas_spent + gas;
    }

    /// Whether the counters stay within `max_tx` and `max_gas` at `now_ms`;
    /// an expired window passes unconditionally.
    pub fn check_limits(&self, max_tx_per_window: u64, max_gas_per_window: u64, now_ms: u64) -> (r:
        bool)
        ensures
            r <==> abuse_allows(
                *self,
                max_tx_per_window as int,
                max_gas_per_window as int,
                now_ms as int,
            ),
    {
        if now_ms >= self.window_start_ms && now_ms - self.window_start_ms
            >= self.window_duration_ms {
            return true;
        }
        self.tx_count <= max_tx_per_window && self.gas_spent <= max_gas_per_window
    }
}

/// Abuse-detection limits.
#[derive(Debug, Clone, PartialEq, Eq, Structural)]
pub struct AbuseConfig {
    /// Max transactions per user per window.
    pub max_tx_per_window: u64,
    /// Max gas per user per window.
    pub max_gas_per_window: u64,
    /// Window width in milliseconds.
    pub window_duration_ms: u64,
}

impl Default for AbuseConfig {
    /// 1000 transactions and 100 billion gas units per hour-long window.
    fn default() -> (r: AbuseConfig)
        ensures
            r == (AbuseConfig {
                max_tx_per_window: 1000,
                max_gas_per_window: 100_000_000_000,
                window_duration_ms: 3_600_000,
            }),
    {
        AbuseConfig {
            max_tx_per_window: 1000,
            max_gas_per_window: 100_000_000_000,
            window_duration_ms: 3_600_000,
        }
    }
}

/// A sponsorship request: who asks, for which plan, and its estimated gas.
#[derive(Debug, Clone)]
pub struct SponsorshipRequest {
    /// Address of the user asking for sponsorship.
    pub user_address: String,
    /// Identifier of the route plan being sponsored.
    pub route_plan_id: String,
    /// Estimated gas cost of the sponsored transaction.
    pub estimated_gas: u64,
    /// When the request was created.
    pub created_at_ms: u64,
}

/// What a sponsored transaction is built from: the user as sender, the
/// first registered sponsor gas coin as payer, and the gas terms.
#[derive(Debug, Clone)]
pub struct SponsoredTxPlan {
    /// Sender (user) address.
    pub sender: String,
    /// Sponsor-owned gas coin that pays for the transaction.
    pub gas_coin: String,
    /// Gas budget for the transaction.
    pub gas_budget: u64,
    /// Reference gas price used.
    pub gas_price: u64,
}

/// Decision state of the sponsorship manager: sponsor identity, gas coins,
/// budgets, and abuse counters.
pub struct SponsorshipManager {
    /// Sponsor's hex-encoded Ed25519 signing key.
    pub sponsor_key_hex: String,
    /// Sponsor's address.
    pub sponsor_address: String,
    /// Sponsor-owned gas coin identifiers.
    pub gas_coins: Vec<String>,
    /// Per-user budgets.
    pub user_budgets: Vec<(String, Budget)>,
    /// Per-route-class budgets.
    pub route_budgets: Vec<(String, Budget)>,
    /// Per-user abuse counters.
    pub abuse_metrics: Vec<(String, AbuseMetrics)>,
    /// Abuse-detection limits.
    pub abuse_config: AbuseConfig,
    /// Reference gas price, updated periodically.
    pub gas_price: u64,
}

impl SponsorshipManager {
    pub open spec fn wf(self) -> bool {
        &&& unique_keys(self.user_budgets@)
        &&& unique_keys(self.route_budgets@)
        &&& unique_keys(self.abuse_metrics@)
    }

    /// A fresh manager with no gas coins, budgets, or counters.
    pub fn new(
        sponsor_key_hex: String,
        sponsor_address: String,
        gas_price: u64,
        abuse_config: AbuseConfig,
    ) -> (r: SponsorshipManager)
        ensures
            r.wf(),
            r.sponsor_key_hex@ == sponsor_key_hex@,
            r.sponsor_address@ == sponsor_address@,
            r.gas_price == gas_price,
            r.abuse_config == abuse_config,
            r.gas_coins@.len() == 0,
            r.user_budgets@.len() == 0,
            r.route_budgets@.len() == 0,
            r.abuse_metrics@.len() == 0,
    {
        SponsorshipManager {
            sponsor_key_hex,
            sponsor_address,
            gas_coins: Vec::new(),
            user_budgets: Vec::new(),
            route_budgets: Vec::new(),
            abuse_metrics: Vec::new(),
            abuse_config,
            gas_price,
        }
    }

    /// Replace the registered sponsor gas coins.
    pub fn update_gas_coins(&mut self, coins: Vec<String>)
        requires
            old(self).wf(),
        ensures
            final(self).wf(),
            *final(self) == (SponsorshipManager { gas_coins: coins, ..*old(self) }),
    {
        self.gas_coins = coins;
    }

    /// The registered sponsor gas coin identifiers, in order.
    pub fn gas_coin_ids(&self) -> (r: Vec<String>)
        ensures
            r@.len() == self.gas_coins@.len(),
            forall|i: int| 0 <= i < r@.len() ==> (#[trigger] r@[i])@ == self.gas_coins@[i]@,
    {
        let mut r: Vec<String> = Vec::new();
        let mut i: usize = 0;
        while i < self.gas_coins.len()
            invariant
                i <= self.gas_coins@.len(),
                r@.len() == i,
                forall|j: int| 0 <= j < i ==> (#[trigger] r@[j])@ == self.gas_coins@[j]@,
            decreases self.gas_coins@.len() - i,
        {
            r.push(self.gas_coins[i].clone());
            i = i + 1;
        }
        r
    }

    /// Update the reference gas price.
    pub fn update_gas_price(&mut self, price: u64)
        requires
            old(self).wf(),
        ensures
            final(self).wf(),
            *final(self) == (SponsorshipManager { gas_price: price, ..*old(self) }),
    {
        self.gas_price = price;
    }

    /// Set (or replace) the budget for a user, its window starting at
    /// `now_ms`.
    pub fn set_user_budget(
        &mut self,
        user: String,
        total_budget: u64,
        per_tx_limit: u64,
        window_ms: Option<u64>,
        now_ms: u64,
    )
        requires
            old(self).wf(),
        ensures
            final(self).wf(),
            (find_key(old(self).user_budgets@, user@) matches Some(i) ==> final(self).user_budgets@ == old(self).user_budgets@.update(
                i,
                (old(self).user_budgets@[i].0, Budget {
                    total_budget,
                    spent: 0,
                    window_ms,
                    last_reset_ms: now_ms,
                    per_tx_limit,
                }),
            )),
            find_key(old(self).user_budgets@, user@) is None ==> final(self).user_budgets@.len()
                == old(self).user_budgets@.len() + 1 && (forall|j: int|
                0 <= j < old(self).user_budgets@.len() ==> #[trigger] final(self).user_budgets@[j]
                    == old(self).user_budgets@[j]) && final(self).user_budgets@.last().0@ == user@
                && final(self).user_budgets@.last().1 == (Budget {
                total_budget,
                spent: 0,
                window_ms,
                last_reset_ms: now_ms,
                per_tx_limit,
            }),
            final(self).gas_coins@ == old(self).gas_coins@,
            final(self).abuse_metrics@ == old(self).abuse_metrics@,
            final(self).route_budgets@ == old(self).route_budgets@,
            final(self).abuse_config == old(self).abuse_config,
            final(self).gas_price == old(self).gas_price,
            final(self).sponsor_key_hex == old(self).sponsor_key_hex,
            final(self).sponsor_address == old(self).sponsor_address,
    {
        let b = Budget::new(total_budget, per_tx_limit, window_ms, now_ms);
        match find_idx(&self.user_budgets, user.as_str()) {
            Some(i) => {
                self.user_budgets[i].1 = b;
                proof {
                    assert(final(self).user_budgets@[i as int].0@ == user@);
                }
            },
            None => {
                self.user_budgets.push((user, b));
                proof {
                    let n = old(self).user_budgets@.len() as int;
                    assert(final(self).user_budgets@[n].0@ == user@);
                }
            },
        }
    }

    /// Set (or replace) the budget for a route class, its window starting
    /// at `now_ms`.
    pub fn set_route_budget(
        &mut self,
        route_class: String,
        total_budget: u64,
        per_tx_limit: u64,
        window_ms: Option<u64>,
        now_ms: u64,
    )
        requires
            old(self).wf(),
        ensures
            final(self).wf(),
            (find_key(old(self).route_budgets@, route_class@) matches Some(i) ==> final(self).route_budgets@ == old(self).route_budgets@.update(
                i,
                (old(self).route_budgets@[i].0, Budget {
                    total_budget,
                    spent: 0,
                    window_ms,
                    last_reset_ms: now_ms,
                    per_tx_limit,
                }),
            )),
            find_key(old(self).route_budgets@, route_class@) is None ==> final(self).route_budgets@.len() == old(self).route_budgets@.len() + 1 && (forall|j: int|
                0 <= j < old(self).route_budgets@.len() ==> #[trigger] final(self).route_budgets@[j] == old(self).route_budgets@[j]) && final(self).route_budgets@.last().0@ == route_class@ && final(self).route_budgets@.last().1 == (
            Budget {
                total_budget,
                spent: 0,
                window_ms,
                last_reset_ms: now_ms,
                per_tx_limit,
            }),
            final(self).gas_coins@ == old(self).gas_coins@,
            final(self).abuse_metrics@ == old(self).abuse_metrics@,
            final(self).user_budgets@ == old(self).user_budgets@,
            final(self).abuse_config == old(self).abuse_config,
            final(self).gas_price == old(self).gas_price,
            final(self).sponsor_key_hex == old(self).sponsor_key_hex,
            final(self).sponsor_address == old(self).sponsor_address,
    {
        let b = Budget::new(total_budget, per_tx_limit, window_ms, now_ms);
        match find_idx(&self.route_budgets, route_class.as_str()) {
            Some(i) => {
                self.route_budgets[i].1 = b;
                proof {
                    assert(final(self).route_budgets@[i as int].0@ == route_class@);
                }
            },
            None => {
                self.route_budgets.push((route_class, b));
                proof {
                    let n = old(self).route_budgets@.len() as int;
                    assert(final(self).route_budgets@[n].0@ == route_class@);
                }
            },
        }
    }

    /// Whether sponsorship is admitted for `req` at `now_ms`.
    ///
    /// Admission requires, in order: the user's budget (when one is set) to
    /// admit the estimated gas, the user's abuse counters (created fresh on
    /// first sight) to stay within limits, and at least one registered
    /// sponsor gas coin. Without any registered gas coin the answer is
    /// always `false`.
    pub fn can_sponsor(&mut self, req: &SponsorshipRequest, now_ms: u64) -> (r: bool)
        requires
            old(self).wf(),
        ensures
            final(self).wf(),
            r <==> ({
                &&& (find_key(old(self).user_budgets@, req.user_address@) matches Some(i)
                    ==> budget_allows(
                    old(self).user_budgets@[i].1,
                    req.estimated_gas as int,
                    now_ms as int,
                ))
                &&& (find_key(old(self).abuse_metrics@, req.user_address@) matches Some(i)
                    ==> abuse_allows(
                    old(self).abuse_metrics@[i].1,
                    old(self).abuse_config.max_tx_per_window as int,
                    old(self).abuse_config.max_gas_per_window as int,
                    now_ms as int,
                ))
                &&& old(self).gas_coins@.len() > 0
            }),
            old(self).gas_coins@.len() == 0 ==> !r,
            ({
                let ub = old(self).user_budgets@;
                final(self).user_budgets@ == match find_key(ub, req.user_address@) {
                    Some(i) => if budget_window_expired(ub[i].1, now_ms as int) {
                        ub.update(
                            i,
                            (ub[i].0, Budget {
                                spent: 0,
                                last_reset_ms: now_ms,
                                ..ub[i].1
                            }),
                        )
                    } else {
                        ub
                    },
                    None => ub,
                }
            }),
            ({
                let budget_ok = (find_key(old(self).user_budgets@, req.user_address@) matches Some(
                    i,
                ) ==> budget_allows(
                    old(self).user_budgets@[i].1,
                    req.estimated_gas as int,
                    now_ms as int,
                ));
                &&& ((!budget_ok || find_key(old(self).abuse_metrics@, req.user_address@) is Some)
                    ==> final(self).abuse_metrics@ == old(self).abuse_metrics@)
                &&& (budget_ok && find_key(old(self).abuse_metrics@, req.user_address@) is None
                    ==> final(self).abuse_metrics@.len() == old(self).abuse_metrics@.len() + 1 && (
                forall|j: int|
                    0 <= j < old(self).abuse_metrics@.len() ==> #[trigger] final(self).abuse_metrics@[j] == old(self).abuse_metrics@[j]) && final(self).abuse_metrics@.last().0@ == req.user_address@ && final(self).abuse_metrics@.last().1 == (AbuseMetrics {
                    tx_count: 0,
                    gas_spent: 0,
                    window_start_ms: now_ms,
                    window_duration_ms: old(self).abuse_config.window_duration_ms,
                }))
            }),
            final(self).gas_coins@ == old(self).gas_coins@,
            final(self).route_budgets@ == old(self).route_budgets@,
            final(self).abuse_config == old(self).abuse_config,
            final(self).gas_price == old(self).gas_price,
            final(self).sponsor_key_hex == old(self).sponsor_key_hex,
            final(self).sponsor_address == old(self).sponsor_address,
    {
        let allowed_budget: bool = match find_idx(&self.user_budgets, req.user_address.as_str()) {
            Some(i) => {
                let pair: &mut (String, Budget) = &mut self.user_budgets[i];
                pair.1.can_spend(req.estimated_gas, now_ms)
            },
            None => true,
        };
        proof {
            let ub = old(self).user_budgets@;
            if let Some(i) = find_key(ub, req.user_address@) {
                if !budget_window_expired(ub[i].1, now_ms as int) {
                    assert(self.user_budgets@ =~= ub);
                } else {
                    assert(self.user_budgets@ =~= ub.update(
                        i,
                        (ub[i].0, Budget { spent: 0, last_reset_ms: now_ms, ..ub[i].1 }),
                    ));
                }
            }
        }
        if !allowed_budget {
            return false;
        }
        let allowed_abuse: bool = match find_idx(&self.abuse_metrics, req.user_address.as_str()) {
            Some(i) => self.abuse_metrics[i].1.check_limits(
                self.abuse_config.max_tx_per_window,
                self.abuse_config.max_gas_per_window,
                now_ms,
            ),
            None => {
                let fresh = AbuseMetrics::new(self.abuse_config.window_duration_ms, now_ms);
                let ok = fresh.check_limits(
                    self.abuse_config.max_tx_per_window,
                    self.abuse_config.max_gas_per_window,
                    now_ms,
                );
                self.abuse_metrics.push((req.user_address.clone(), fresh));
                ok
            },
        };
        if !allowed_abuse {
            return false;
        }
        self.gas_coins.len() > 0
    }

    /// Record spending for a user: charge the budget (when one is set) and
    /// update the abuse counters (created fresh on first sight).
    pub fn record_spending(&mut self, user: &str, gas: u64, now_ms: u64)
        requires
            old(self).wf(),
            (find_key(old(self).user_budgets@, user@) matches Some(i) ==> old(
                self,
            ).user_budgets@[i].1.spent + gas <= u64::MAX),
            (find_key(old(self).abuse_metrics@, user@) matches Some(i) ==> old(
                self,
            ).abuse_metrics@[i].1.tx_count < u64::MAX && old(self).abuse_metrics@[i].1.gas_spent
                + gas <= u64::MAX),
        ensures
            final(self).wf(),
            (find_key(old(self).user_budgets@, user@) matches Some(i) ==> final(self).user_budgets@ == old(self).user_budgets@.update(
                i,
                (old(self).user_budgets@[i].0, Budget {
                    spent: (old(self).user_budgets@[i].1.spent + gas) as u64,
                    ..old(self).user_budgets@[i].1
                }),
            )),
            find_key(old(self).user_budgets@, user@) is None ==> final(self).user_budgets@ == old(
                self,
            ).user_budgets@,
            (find_key(old(self).abuse_metrics@, user@) matches Some(i) ==> final(self).abuse_metrics@ == old(self).abuse_metrics@.update(
                i,
                (old(self).abuse_metrics@[i].0, abuse_after_record(
                    old(self).abuse_metrics@[i].1,
                    gas as int,
                    now_ms as int,
                )),
            )),
            find_key(old(self).abuse_metrics@, user@) is None ==> final(self).abuse_metrics@.len()
                == old(self).abuse_metrics@.len() + 1 && (forall|j: int|
                0 <= j < old(self).abuse_metrics@.len() ==> #[trigger] final(self).abuse_metrics@[j] == old(self).abuse_metrics@[j]) && final(self).abuse_metrics@.last().0@ == user@ && final(self).abuse_metrics@.last().1 == (
            AbuseMetrics {
                tx_count: 1,
                gas_spent: gas,
                window_start_ms: now_ms,
                window_duration_ms: old(self).abuse_config.window_duration_ms,
            }),
            final(self).gas_coins@ == old(self).gas_coins@,
            final(self).route_budgets@ == old(self).route_budgets@,
            final(self).abuse_config == old(self).abuse_config,
            final(self).gas_price == old(self).gas_price,
            final(self).sponsor_key_hex == old(self).sponsor_key_hex,
            final(self).sponsor_address == old(self).sponsor_address,
    {
        match find_idx(&self.user_budgets, user) {
            Some(i) => {
                let pair: &mut (String, Budget) = &mut self.user_budgets[i];
                pair.1.spend(gas);
            },
            None => {},
        }
        match find_idx(&self.abuse_metrics, user) {
            Some(i) => {
                let pair: &mut (String, AbuseMetrics) = &mut self.abuse_metrics[i];
                pair.1.record_tx(gas, now_ms);
            },
            None => {
                let mut fresh = AbuseMetrics::new(self.abuse_config.window_duration_ms, now_ms);
                fresh.record_tx(gas, now_ms);
                self.abuse_metrics.push((user.to_owned(), fresh));
            },
        }
    }

    /// Plan a sponsored transaction: the user as sender, paid by the first
    /// given sponsor gas coin at the current reference gas price. Fails
    /// exactly when no gas coin reference is given.
    pub fn plan_sponsored_transaction(
        &self,
        sender: String,
        gas_object_refs: &Vec<String>,
        gas_budget: u64,
    ) -> (r: Result<SponsoredTxPlan, AggrError>)
        ensures
            r is Ok <==> gas_object_refs@.len() > 0,
            r matches Ok(p) ==> p.sender@ == sender@ && p.gas_coin@ == gas_object_refs@[0]@
                && p.gas_budget == gas_budget && p.gas_price == self.gas_price,
            r is Err ==> r->Err_0 == AggrError::BuildTx,
    {
        if gas_object_refs.len() == 0 {
            return Err(AggrError::BuildTx);
        }
        Ok(SponsoredTxPlan {
            sender,
            gas_coin: gas_object_refs[0].clone(),
            gas_budget,
            gas_price: self.gas_price,
        })
    }

    /// Sign a built sponsored transaction with the sponsor's key; the
    /// bytes must be the canonical transaction both parties sign. The
    /// signature verifies under the sponsor's public key over the same
    /// pre-image the user signs.
    pub fn sign_sponsored_transaction(&self, tx_bcs: &[u8]) -> (r: Result<Vec<u8>, AggrError>)
        ensures
            r is Ok <==> crate::signing::valid_key_hex(self.sponsor_key_hex@),
            (r matches Ok(sig) ==> sig@ == crate::signing::serialized_signature_spec(
                self.sponsor_key_hex@,
                tx_bcs@,
            )),
            (r matches Ok(sig) ==> crate::signing::ed25519_verifies(
                crate::signing::ed25519_public_of(
                    crate::signing::hex_decode_spec(self.sponsor_key_hex@),
                ),
                crate::signing::signing_digest(tx_bcs@),
                sig@.subrange(1, 65),
            )),
            r is Err ==> r->Err_0 == AggrError::Signing,
    {
        match crate::signing::sign_tx_bcs_ed25519_to_serialized_signature(
            tx_bcs,
            self.sponsor_key_hex.as_str(),
        ) {
            Ok((sig, _)) => Ok(sig),
            Err(e) => Err(e),
        }
    }

    /// The sponsor's address.
    pub fn sponsor_address(&self) -> (r: &String)
        ensures
            r@ == self.sponsor_address@,
    {
        &self.sponsor_address
    }

    /// Remaining budget for a user, `None` when no budget is set.
    pub fn get_user_budget_remaining(&self, user: &str) -> (r: Option<u64>)
        requires
            self.wf(),
        ensures
            find_key(self.user_budgets@, user@) matches Some(i) ==> r == Some(
                (if self.user_budgets@[i].1.spent <= self.user_budgets@[i].1.total_budget {
                    self.user_budgets@[i].1.total_budget - self.user_budgets@[i].1.spent
                } else {
                    0int
                }) as u64,
            ),
            find_key(self.user_budgets@, user@) is None ==> r is None,
    {
        match find_idx(&self.user_budgets, user) {
            Some(i) => Some(self.user_budgets[i].1.remaining()),
            None => None,
        }
    }
}

} // verus!
