//! Admission control and per-class circuit breakers.
//!
//! Time is passed in explicitly as milliseconds from a monotonic clock; the
//! caller that owns the clock supplies `now_ms`.

use vstd::prelude::*;

verus! {

/// Whether an admission stamped `t` still lies in the trailing window of
/// width `w` ending at `now`.
pub open spec fn in_window(t: int, now: int, w: int) -> bool {
    now - t <= w
}

/// Drop leading timestamps that have fallen out of the window, stopping at
/// the first one still inside it (the sequence is kept oldest-first).
pub open spec fn prune(ts: Seq<u64>, now: int, w: int) -> Seq<u64>
    decreases ts.len(),
{
    if ts.len() == 0 {
        ts
    } else if !in_window(ts[0] as int, now, w) {
        prune(ts.skip(1), now, w)
    } else {
        ts
    }
}

/// Oldest-first ordering of admission timestamps.
pub open spec fn sorted_ascending(ts: Seq<u64>) -> bool {
    forall|i: int, j: int| 0 <= i <= j < ts.len() ==> ts[i] <= ts[j]
}

/// On a sorted sequence, pruning leaves only timestamps inside the window.
pub proof fn lemma_prune_all_in_window(ts: Seq<u64>, now: int, w: int)
    requires
        sorted_ascending(ts),
    ensures
        forall|i: int|
            0 <= i < prune(ts, now, w).len() ==> in_window(
                #[trigger] prune(ts, now, w)[i] as int,
                now,
                w,
            ),
    decreases ts.len(),
{
    if ts.len() == 0 {
    } else if !in_window(ts[0] as int, now, w) {
        assert(sorted_ascending(ts.skip(1)));
        lemma_prune_all_in_window(ts.skip(1), now, w);
        assert(prune(ts, now, w) == prune(ts.skip(1), now, w));
        assert forall|i: int|
            0 <= i < prune(ts, now, w).len() implies in_window(
            prune(ts, now, w)[i] as int,
            now,
            w,
        ) by {
            assert(in_window(prune(ts.skip(1), now, w)[i] as int, now, w));
        }
    } else {
        assert(prune(ts, now, w) == ts);
        assert forall|i: int|
            0 <= i < prune(ts, now, w).len() implies in_window(
            prune(ts, now, w)[i] as int,
            now,
            w,
        ) by {
            assert(ts[0] <= ts[i]);
        }
    }
}

/// Pruning keeps the oldest-first order.
pub proof fn lemma_prune_sorted(ts: Seq<u64>, now: int, w: int)
    requires
        sorted_ascending(ts),
    ensures
        sorted_ascending(prune(ts, now, w)),
    decreases ts.len(),
{
    if ts.len() == 0 {
    } else if !in_window(ts[0] as int, now, w) {
        assert(sorted_ascending(ts.skip(1)));
        lemma_prune_sorted(ts.skip(1), now, w);
    }
}


/// Number of timestamps of `s` inside the trailing window `(t−w, t]`.
pub open spec fn count_window(s: Seq<u64>, t: int, w: int) -> int
    decreases s.len(),
{
    if s.len() == 0 {
        0
    } else {
        count_window(s.drop_last(), t, w) + if t - w < s.last() as int && s.last() as int <= t {
            1int
        } else {
            0int
        }
    }
}

proof fn lemma_count_window_subsumed(s: Seq<u64>, t1: int, w: int, t2: int)
    requires
        forall|i: int|
            0 <= i < s.len() && t1 - w < (#[trigger] s[i]) as int <= t1 ==> t2 - w < s[i] as int
                <= t2,
    ensures
        count_window(s, t1, w) <= count_window(s, t2, w),
    decreases s.len(),
{
    if s.len() > 0 {
        assert(forall|i: int|
            0 <= i < s.drop_last().len() && t1 - w < (#[trigger] s.drop_last()[i]) as int <= t1
                ==> t2 - w < s.drop_last()[i] as int <= t2) by {
            assert(forall|i: int|
                0 <= i < s.drop_last().len() ==> #[trigger] s.drop_last()[i] == s[i]);
        }
        lemma_count_window_subsumed(s.drop_last(), t1, w, t2);
        assert(s[s.len() - 1] == s.last());
    }
}

/// The rate limit holds over every trailing window.
///
/// Suppose every admission in a sorted history was individually
/// admitted: at each one, at most `rate` admissions (itself included)
/// lay in the trailing window ending there, as `try_acquire` ensures.
/// Then no trailing window of width `w`, ending at any time `t`,
/// contains more than `rate` admissions.
pub proof fn lemma_trailing_window_bound(s: Seq<u64>, rate: int, w: int, t: int)
    requires
        sorted_ascending(s),
        w > 0,
        forall|k: int|
            0 <= k < s.len() ==> count_window(#[trigger] s.take(k + 1), s[k] as int, w) <= rate,
        rate >= 0,
    ensures
        count_window(s, t, w) <= rate,
    decreases s.len(),
{
    if s.len() == 0 {
    } else {
        let last = s.last() as int;
        if last > t {
            assert(sorted_ascending(s.drop_last()));
            assert(forall|k: int|
                0 <= k < s.drop_last().len() ==> count_window(
                    #[trigger] s.drop_last().take(k + 1),
                    s.drop_last()[k] as int,
                    w,
                ) <= rate) by {
                assert(forall|k: int|
                    0 <= k < s.drop_last().len() ==> s.drop_last().take(k + 1) =~= s.take(k + 1)
                        && s.drop_last()[k] == s[k]);
            }
            lemma_trailing_window_bound(s.drop_last(), rate, w, t);
            assert(count_window(s, t, w) == count_window(s.drop_last(), t, w));
        } else {
            assert(forall|i: int|
                0 <= i < s.len() && t - w < (#[trigger] s[i]) as int <= t ==> last - w < s[
                    i
                ] as int <= last) by {
                assert(forall|i: int| 0 <= i < s.len() ==> #[trigger] s[i] <= s[s.len() - 1]);
            }
            lemma_count_window_subsumed(s, t, w, last);
            assert(s.take(s.len() as int) =~= s);
            assert(count_window(s.take(s.len() - 1 + 1), s[s.len() - 1] as int, w) <= rate);
        }
    }
}

/// Sliding-window rate limiter: admits when fewer than `rate_per_sec`
/// admissions fall inside the trailing one-second window.
pub struct RateLimiter {
    pub rate_per_sec: u32,
    /// Admission timestamps in milliseconds, oldest first.
    pub timestamps: Vec<u64>,
    /// Window width in milliseconds.
    pub window_ms: u64,
}

impl RateLimiter {
    pub open spec fn wf(self) -> bool {
        &&& sorted_ascending(self.timestamps@)
        &&& self.window_ms > 0
    }

    pub open spec fn spec_rate(self) -> u32 {
        self.rate_per_sec
    }

    pub open spec fn spec_window_ms(self) -> u64 {
        self.window_ms
    }

    pub open spec fn spec_timestamps(self) -> Seq<u64> {
        self.timestamps@
    }

    pub fn new(rate_per_sec: u32) -> (r: RateLimiter)
        ensures
            r.wf(),
            r.spec_rate() == rate_per_sec,
            r.spec_window_ms() == 1000,
            r.spec_timestamps().len() == 0,
    {
        RateLimiter { rate_per_sec, timestamps: Vec::new(), window_ms: 1000 }
    }

    /// Try to admit one request at time `now_ms`.
    ///
    /// Stale timestamps are dropped first; the request is admitted, and its
    /// timestamp recorded, exactly when fewer than `rate_per_sec` admissions
    /// remain in the window. After a successful admission at most
    /// `rate_per_sec` recorded admissions lie in the trailing window.
    pub fn try_acquire(&mut self, now_ms: u64) -> (admitted: bool)
        requires
            old(self).wf(),
            forall|i: int|
                0 <= i < old(self).spec_timestamps().len() ==> #[trigger] old(
                    self,
                ).spec_timestamps()[i] <= now_ms,
        ensures
            final(self).wf(),
            final(self).spec_rate() == old(self).spec_rate(),
            final(self).spec_window_ms() == old(self).spec_window_ms(),
            admitted <==> prune(
                old(self).spec_timestamps(),
                now_ms as int,
                old(self).spec_window_ms() as int,
            ).len() < old(self).spec_rate(),
            final(self).spec_timestamps() == if admitted {
                prune(
                    old(self).spec_timestamps(),
                    now_ms as int,
                    old(self).spec_window_ms() as int,
                ).push(now_ms)
            } else {
                prune(old(self).spec_timestamps(), now_ms as int, old(self).spec_window_ms() as int)
            },
            final(self).spec_timestamps().len() <= final(self).spec_rate() || !admitted,
            forall|i: int|
                0 <= i < final(self).spec_timestamps().len() ==> in_window(
                    #[trigger] final(self).spec_timestamps()[i] as int,
                    now_ms as int,
                    final(self).spec_window_ms() as int,
                ),
    {
        let ghost orig: Seq<u64> = self.timestamps@;
        let ghost w: int = self.window_ms as int;
        proof {
            assert forall|i: int|
                0 <= i < self.timestamps@.len() implies #[trigger] self.timestamps@[i]
                <= now_ms by {
                assert(old(self).spec_timestamps()[i] <= now_ms);
            }
        }
        loop
            invariant
                self.rate_per_sec == old(self).rate_per_sec,
                self.window_ms == old(self).window_ms,
                w == self.window_ms as int,
                sorted_ascending(self.timestamps@),
                forall|i: int|
                    0 <= i < self.timestamps@.len() ==> #[trigger] self.timestamps@[i] <= now_ms,
                prune(self.timestamps@, now_ms as int, w) == prune(orig, now_ms as int, w),
            ensures
                self.timestamps@ == prune(orig, now_ms as int, w),
            decreases self.timestamps@.len(),
        {
            if self.timestamps.len() == 0 {
                break;
            }
            let front: u64 = self.timestamps[0];
            if now_ms - front > self.window_ms {
                let ghost pre: Seq<u64> = self.timestamps@;
                self.timestamps.remove(0);
                proof {
                    assert(self.timestamps@ =~= pre.skip(1));
                    assert forall|i: int|
                        0 <= i < self.timestamps@.len() implies #[trigger] self.timestamps@[i]
                        <= now_ms by {
                        assert(self.timestamps@[i] == pre[i + 1]);
                        assert(pre[i + 1] <= now_ms);
                    }
                    assert(sorted_ascending(self.timestamps@));
                }
            } else {
                break;
            }
        }
        proof {
            lemma_prune_sorted(orig, now_ms as int, w);
            lemma_prune_all_in_window(orig, now_ms as int, w);
        }
        if self.timestamps.len() < self.rate_per_sec as usize {
            self.timestamps.push(now_ms);
            true
        } else {
            false
        }
    }
}

/// Counting gate bounding the number of requests in flight.
pub struct InflightGate {
    pub max_inflight: usize,
    pub in_use: usize,
}

impl InflightGate {
    pub open spec fn wf(self) -> bool {
        self.in_use <= self.max_inflight
    }

    pub open spec fn spec_max(self) -> usize {
        self.max_inflight
    }

    pub open spec fn spec_in_use(self) -> usize {
        self.in_use
    }

    pub fn new(max_inflight: usize) -> (r: InflightGate)
        ensures
            r.wf(),
            r.spec_max() == max_inflight,
            r.spec_in_use() == 0,
    {
        InflightGate { max_inflight, in_use: 0 }
    }

    /// Take one permit; succeeds exactly when a permit is free.
    pub fn try_enter(&mut self) -> (entered: bool)
        requires
            old(self).wf(),
        ensures
            final(self).wf(),
            final(self).spec_max() == old(self).spec_max(),
            entered <==> old(self).spec_in_use() < old(self).spec_max(),
            final(self).spec_in_use() == if entered {
                old(self).spec_in_use() + 1
            } else {
                old(self).spec_in_use() as int
            },
    {
        if self.in_use < self.max_inflight {
            self.in_use = self.in_use + 1;
            true
        } else {
            false
        }
    }

    /// Return one permit.
    pub fn leave(&mut self)
        requires
            old(self).wf(),
            old(self).spec_in_use() > 0,
        ensures
            final(self).wf(),
            final(self).spec_max() == old(self).spec_max(),
            final(self).spec_in_use() == old(self).spec_in_use() - 1,
    {
        self.in_use = self.in_use - 1;
    }
}

/// The two admission gates stacked: a rate limiter and a concurrency gate.
pub struct AdmissionControl {
    pub rate: RateLimiter,
    pub gate: InflightGate,
}

impl AdmissionControl {
    pub open spec fn wf(self) -> bool {
        self.rate.wf() && self.gate.wf()
    }

    /// `rate_per_sec` of `None` falls back to 200 admissions per second.
    pub fn new(max_inflight: usize, rate_per_sec: Option<u32>) -> (r: AdmissionControl)
        ensures
            r.wf(),
            r.gate.spec_max() == max_inflight,
            r.gate.spec_in_use() == 0,
            r.rate.spec_rate() == match rate_per_sec {
                Some(n) => n,
                None => 200u32,
            },
            r.rate.spec_timestamps().len() == 0,
    {
        let rate: u32 = match rate_per_sec {
            Some(n) => n,
            None => 200,
        };
        AdmissionControl { rate: RateLimiter::new(rate), gate: InflightGate::new(max_inflight) }
    }

    /// One admission attempt at `now_ms`: the rate gate is consulted
    /// first and consumes a window slot when it passes, then the
    /// concurrency gate; the request is admitted exactly when both pass.
    pub fn try_admit(&mut self, now_ms: u64) -> (admitted: bool)
        requires
            old(self).wf(),
            forall|i: int|
                0 <= i < old(self).rate.spec_timestamps().len() ==> #[trigger] old(
                    self,
                ).rate.spec_timestamps()[i] <= now_ms,
        ensures
            final(self).wf(),
            final(self).gate.spec_max() == old(self).gate.spec_max(),
            final(self).rate.spec_rate() == old(self).rate.spec_rate(),
            final(self).rate.spec_window_ms() == old(self).rate.spec_window_ms(),
            ({
                let pruned = prune(
                    old(self).rate.spec_timestamps(),
                    now_ms as int,
                    old(self).rate.spec_window_ms() as int,
                );
                &&& (admitted <==> pruned.len() < old(self).rate.spec_rate() && old(
                    self,
                ).gate.spec_in_use() < old(self).gate.spec_max())
                &&& final(self).rate.spec_timestamps() == if pruned.len() < old(
                    self,
                ).rate.spec_rate() {
                    pruned.push(now_ms)
                } else {
                    pruned
                }
            }),
            final(self).gate.spec_in_use() == old(self).gate.spec_in_use() + if admitted {
                1int
            } else {
                0int
            },
    {
        if self.rate.try_acquire(now_ms) {
            self.gate.try_enter()
        } else {
            false
        }
    }

    /// Release the concurrency permit taken by a successful admission.
    pub fn release(&mut self)
        requires
            old(self).wf(),
            old(self).gate.spec_in_use() > 0,
        ensures
            final(self).wf(),
            final(self).gate.spec_in_use() == old(self).gate.spec_in_use() - 1,
            final(self).rate == old(self).rate,
    {
        self.gate.leave();
    }
}

/// A breaker in its initial configuration: empty window, defaults, closed.
pub open spec fn is_fresh_breaker(b: Breaker) -> bool {
    &&& b.window@.len() == 0
    &&& b.max_window == 100
    &&& b.threshold_permille == 500
    &&& b.min_samples == 20
    &&& b.open_until is None
    &&& b.open_cooldown_ms == 5000
}

/// Number of recorded failures in a breaker window.
pub open spec fn count_failures(w: Seq<bool>) -> int
    decreases w.len(),
{
    if w.len() == 0 {
        0
    } else {
        count_failures(w.drop_last()) + if w.last() {
            1int
        } else {
            0int
        }
    }
}

/// Sliding-window circuit breaker for one class.
pub struct Breaker {
    /// Most recent outcomes, oldest first; `true` records a failure.
    pub window: Vec<bool>,
    pub max_window: usize,
    /// Failure-rate trip threshold in thousandths.
    pub threshold_permille: u64,
    pub min_samples: usize,
    pub open_until: Option<u64>,
    pub open_cooldown_ms: u64,
}

impl Breaker {
    pub open spec fn wf(self) -> bool {
        &&& self.window@.len() <= self.max_window
        &&& self.max_window > 0
        &&& self.threshold_permille <= 1000
    }

    pub open spec fn spec_window(self) -> Seq<bool> {
        self.window@
    }

    pub open spec fn spec_open_until(self) -> Option<u64> {
        self.open_until
    }

    pub open spec fn spec_cooldown_ms(self) -> u64 {
        self.open_cooldown_ms
    }

    /// Whether a window of outcomes trips the breaker: enough samples and a
    /// failure rate at or above the threshold.
    pub open spec fn trips(self, w: Seq<bool>) -> bool {
        &&& w.len() >= self.min_samples
        &&& count_failures(w) * 1000 >= self.threshold_permille * w.len()
    }

    /// The default breaker: window of 100, threshold one half, 20 minimum
    /// samples, five-second cooldown, closed.
    pub fn new() -> (r: Breaker)
        ensures
            r.wf(),
            r.spec_window().len() == 0,
            r.spec_open_until() is None,
            r.max_window == 100,
            r.threshold_permille == 500,
            r.min_samples == 20,
            r.spec_cooldown_ms() == 5000,
    {
        Breaker {
            window: Vec::new(),
            max_window: 100,
            threshold_permille: 500,
            min_samples: 20,
            open_until: None,
            open_cooldown_ms: 5000,
        }
    }

    /// Whether the breaker is open at `now_ms`.
    ///
    /// While the cooldown deadline lies ahead every call answers `true` and
    /// changes nothing; at or past the deadline the breaker closes and
    /// answers `false`.
    pub fn is_open(&mut self, now_ms: u64) -> (open: bool)
        requires
            old(self).wf(),
        ensures
            final(self).wf(),
            open <==> (old(self).spec_open_until() matches Some(u) && now_ms < u),
            open ==> *final(self) == *old(self),
            !open ==> *final(self) == (Breaker { open_until: None, ..*old(self) }),
    {
        match self.open_until {
            Some(until) => {
                if now_ms < until {
                    true
                } else {
                    self.open_until = None;
                    false
                }
            },
            None => false,
        }
    }

    /// Record one outcome at `now_ms` (`failure` = `true`).
    ///
    /// The outcome joins the window, evicting the oldest entry when the
    /// window is full. If the updated window trips the breaker and it is
    /// not already open, it opens until `now_ms` plus the cooldown.
    pub fn record(&mut self, failure: bool, now_ms: u64)
        requires
            old(self).wf(),
            now_ms + old(self).spec_cooldown_ms() <= u64::MAX,
        ensures
            final(self).wf(),
            final(self).spec_window() == if old(self).spec_window().len() == old(self).max_window {
                old(self).spec_window().skip(1).push(failure)
            } else {
                old(self).spec_window().push(failure)
            },
            final(self).spec_open_until() == if old(self).trips(final(self).spec_window()) && old(
                self,
            ).spec_open_until() is None {
                Some((now_ms + old(self).spec_cooldown_ms()) as u64)
            } else {
                old(self).spec_open_until()
            },
            final(self).max_window == old(self).max_window,
            final(self).threshold_permille == old(self).threshold_permille,
            final(self).min_samples == old(self).min_samples,
            final(self).spec_cooldown_ms() == old(self).spec_cooldown_ms(),
    {
        if self.window.len() == self.max_window {
            self.window.remove(0);
            proof {
                assert(self.window@ =~= old(self).window@.skip(1));
            }
        }
        self.window.push(failure);

        let samples: usize = self.window.len();
        if samples >= self.min_samples {
            let fails: u64 = count_failures_exec(&self.window);
            proof {
                vstd::arithmetic::mul::lemma_mul_upper_bound(
                    self.threshold_permille as int,
                    1000,
                    samples as int,
                    usize::MAX as int,
                );
            }
            if (fails as u128) * 1000 >= (self.threshold_permille as u128) * (samples as u128)
                && self.open_until.is_none() {
                self.open_until = Some(now_ms + self.open_cooldown_ms);
            }
        }
    }
}

/// Count the failures recorded in a window.
fn count_failures_exec(w: &Vec<bool>) -> (n: u64)
    requires
        w@.len() <= u64::MAX,
    ensures
        n == count_failures(w@),
{
    let mut n: u64 = 0;
    let mut i: usize = 0;
    proof {
        assert(w@.take(0) =~= Seq::<bool>::empty());
    }
    while i < w.len()
        invariant
            i <= w@.len(),
            w@.len() <= u64::MAX,
            n == count_failures(w@.take(i as int)),
            n <= i,
        decreases w@.len() - i,
    {
        proof {
            assert(w@.take(i + 1).drop_last() =~= w@.take(i as int));
            assert(w@.take(i + 1).last() == w@[i as int]);
        }
        if w[i] {
            n = n + 1;
        }
        i = i + 1;
    }
    proof {
        assert(w@.take(w@.len() as int) =~= w@);
    }
    n
}

/// Per-class circuit breakers, created on first use.
pub struct CircuitBreakers {
    pub classes: Vec<(String, Breaker)>,
}

impl CircuitBreakers {
    pub open spec fn wf(self) -> bool {
        &&& forall|i: int| 0 <= i < self.classes@.len() ==> (#[trigger] self.classes@[i]).1.wf()
        &&& forall|i: int|
            0 <= i < self.classes@.len() ==> (#[trigger] self.classes@[i]).1.open_cooldown_ms
                == 5000 && self.classes@[i].1.max_window == 100 && self.classes@[
            i].1.threshold_permille == 500 && self.classes@[i].1.min_samples == 20
        &&& forall|i: int, j: int|
            0 <= i < j < self.classes@.len() ==> (#[trigger] self.classes@[i]).0@ != (
            #[trigger] self.classes@[j]).0@
    }

    pub open spec fn spec_classes(self) -> Seq<(String, Breaker)> {
        self.classes@
    }

    /// Index of the breaker registered for `class`, if any.
    pub open spec fn spec_find(self, class: Seq<char>) -> Option<int> {
        if exists|i: int| 0 <= i < self.classes@.len() && (#[trigger] self.classes@[i]).0@ == class {
            Some(choose|i: int| 0 <= i < self.classes@.len() && (#[trigger] self.classes@[i]).0@ == class)
        } else {
            None
        }
    }

    pub fn new() -> (r: CircuitBreakers)
        ensures
            r.wf(),
            r.spec_classes().len() == 0,
    {
        CircuitBreakers { classes: Vec::new() }
    }

    /// Position of `class` in the table, inserting a fresh breaker when the
    /// class is new.
    fn find_or_insert(&mut self, class: &str) -> (idx: usize)
        requires
            old(self).wf(),
        ensures
            final(self).wf(),
            idx < final(self).spec_classes().len(),
            final(self).spec_classes()[idx as int].0@ == class@,
            (old(self).spec_find(class@) matches Some(i) ==> idx == i && final(self).spec_classes()
                == old(self).spec_classes()),
            old(self).spec_find(class@) is None ==> idx == old(self).spec_classes().len()
                && final(self).spec_classes().len() == old(self).spec_classes().len() + 1
                && is_fresh_breaker(final(self).spec_classes()[idx as int].1)
                && forall|j: int| 0 <= j < old(self).spec_classes().len()
                    ==> #[trigger] final(self).spec_classes()[j] == old(self).spec_classes()[j],
    {
        let mut i: usize = 0;
        while i < self.classes.len()
            invariant
                old(self).wf(),
                self.classes@ == old(self).classes@,
                i <= self.classes@.len(),
                forall|j: int| 0 <= j < i ==> (#[trigger] self.classes@[j]).0@ != class@,
            decreases self.classes@.len() - i,
        {
            if string_eq_str(&self.classes[i].0, class) {
                return i;
            }
            i = i + 1;
        }
        let idx: usize = self.classes.len();
        self.classes.push((class.to_owned(), Breaker::new()));
        idx
    }

    /// Whether the breaker for `class` is open at `now_ms`; an unknown
    /// class gets a fresh, closed breaker and answers `false`.
    pub fn is_open(&mut self, class: &str, now_ms: u64) -> (open: bool)
        requires
            old(self).wf(),
        ensures
            final(self).wf(),
            (old(self).spec_find(class@) matches Some(i) ==> (open <==> (old(
                self,
            ).spec_classes()[i].1.spec_open_until() matches Some(u) && now_ms < u))),
            old(self).spec_find(class@) is None ==> !open,
            (old(self).spec_find(class@) matches Some(i) ==> final(self).spec_classes() == if open {
                old(self).spec_classes()
            } else {
                old(self).spec_classes().update(
                    i,
                    (old(self).spec_classes()[i].0, Breaker {
                        open_until: None,
                        ..old(self).spec_classes()[i].1
                    }),
                )
            }),
            old(self).spec_find(class@) is None ==> final(self).spec_classes().len() == old(
                self,
            ).spec_classes().len() + 1 && (forall|j: int|
                0 <= j < old(self).spec_classes().len() ==> #[trigger] final(self).spec_classes()[j] == old(self).spec_classes()[j]) && final(self).spec_classes().last().0@ == class@ && is_fresh_breaker(
                final(self).spec_classes().last().1,
            ),
    {
        let idx: usize = self.find_or_insert(class);
        let ghost mid: Seq<(String, Breaker)> = self.classes@;
        let pair: &mut (String, Breaker) = &mut self.classes[idx];
        let r = pair.1.is_open(now_ms);
        proof {
            assert(forall|i: int|
                0 <= i < self.classes@.len() ==> (#[trigger] self.classes@[i]).1.wf());
            if r {
                assert(self.classes@ =~= mid);
            } else {
                assert(self.classes@ =~= mid.update(
                    idx as int,
                    (mid[idx as int].0, Breaker { open_until: None, ..mid[idx as int].1 }),
                ));
            }
        }
        r
    }

    /// What one recorded outcome does to a class's breaker: the window
    /// gains the outcome (evicting the oldest when full), and a closed
    /// breaker whose new window trips opens until `now` plus the
    /// cooldown.
    pub open spec fn records_outcome(
        before: Breaker,
        after: Breaker,
        failure: bool,
        now: int,
    ) -> bool {
        &&& after.window@ == if before.window@.len() == before.max_window {
            before.window@.skip(1).push(failure)
        } else {
            before.window@.push(failure)
        }
        &&& after.open_until == if before.trips(after.window@) && before.open_until is None {
            Some((now + before.open_cooldown_ms) as u64)
        } else {
            before.open_until
        }
        &&& after.max_window == before.max_window
        &&& after.threshold_permille == before.threshold_permille
        &&& after.min_samples == before.min_samples
        &&& after.open_cooldown_ms == before.open_cooldown_ms
    }

    /// Record a success for `class` at `now_ms`.
    pub fn record_success(&mut self, class: &str, now_ms: u64)
        requires
            old(self).wf(),
            now_ms + 5000 <= u64::MAX,
        ensures
            final(self).wf(),
            (old(self).spec_find(class@) matches Some(i) ==> final(self).spec_classes().len()
                == old(self).spec_classes().len() && (forall|j: int|
                0 <= j < old(self).spec_classes().len() && j != i ==> #[trigger] final(self).spec_classes()[j] == old(self).spec_classes()[j]) && final(self).spec_classes()[i].0@ == class@ && Self::records_outcome(
                old(self).spec_classes()[i].1,
                final(self).spec_classes()[i].1,
                false,
                now_ms as int,
            )),
            old(self).spec_find(class@) is None ==> final(self).spec_classes().len() == old(
                self,
            ).spec_classes().len() + 1 && final(self).spec_classes().last().0@ == class@ && final(self).spec_classes().last().1.window@ == seq![false] && final(self).spec_classes().last().1.open_until is None,
    {
        self.record(class, false, now_ms);
    }

    /// Record a failure for `class` at `now_ms`.
    pub fn record_failure(&mut self, class: &str, now_ms: u64)
        requires
            old(self).wf(),
            now_ms + 5000 <= u64::MAX,
        ensures
            final(self).wf(),
            (old(self).spec_find(class@) matches Some(i) ==> final(self).spec_classes().len()
                == old(self).spec_classes().len() && (forall|j: int|
                0 <= j < old(self).spec_classes().len() && j != i ==> #[trigger] final(self).spec_classes()[j] == old(self).spec_classes()[j]) && final(self).spec_classes()[i].0@ == class@ && Self::records_outcome(
                old(self).spec_classes()[i].1,
                final(self).spec_classes()[i].1,
                true,
                now_ms as int,
            )),
            old(self).spec_find(class@) is None ==> final(self).spec_classes().len() == old(
                self,
            ).spec_classes().len() + 1 && final(self).spec_classes().last().0@ == class@ && final(self).spec_classes().last().1.window@ == seq![true] && final(self).spec_classes().last().1.open_until is None,
    {
        self.record(class, true, now_ms);
    }

    /// Record one outcome for `class`, creating its breaker on first use.
    fn record(&mut self, class: &str, failure: bool, now_ms: u64)
        requires
            old(self).wf(),
            now_ms + 5000 <= u64::MAX,
        ensures
            final(self).wf(),
            (old(self).spec_find(class@) matches Some(i) ==> final(self).spec_classes().len()
                == old(self).spec_classes().len() && (forall|j: int|
                0 <= j < old(self).spec_classes().len() && j != i ==> #[trigger] final(self).spec_classes()[j] == old(self).spec_classes()[j]) && final(self).spec_classes()[i].0@ == class@ && Self::records_outcome(
                old(self).spec_classes()[i].1,
                final(self).spec_classes()[i].1,
                failure,
                now_ms as int,
            )),
            old(self).spec_find(class@) is None ==> final(self).spec_classes().len() == old(
                self,
            ).spec_classes().len() + 1 && final(self).spec_classes().last().0@ == class@ && final(self).spec_classes().last().1.window@ == seq![failure] && final(self).spec_classes().last().1.open_until is None,
    {
        let idx: usize = self.find_or_insert(class);
        let pair: &mut (String, Breaker) = &mut self.classes[idx];
        pair.1.record(failure, now_ms);
    }
}

/// Compare a stored key with a borrowed class name.
fn string_eq_str(a: &String, b: &str) -> (r: bool)
    ensures
        r <==> a@ == b@,
{
    let owned: String = b.to_owned();
    *a == owned
}

} // verus!
