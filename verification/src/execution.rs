//! Execution bookkeeping: transaction digests, submission idempotency,
//! execution counters, and the retry backoff schedule.
//!
//! The submission itself is network work done by the surrounding program;
//! the engine here makes every decision: whether a digest may be
//! submitted, what to record afterwards, and how long to back off.

use vstd::prelude::*;
use crate::errors::AggrError;
use crate::signing::{blake2b512_of, hex_encode, hex_lower_spec};

verus! {

/// The hex digest identifying canonical transaction bytes: Blake2b-512
/// truncated to 32 bytes, in lowercase hex.
pub open spec fn tx_digest_hex(tx: Seq<u8>) -> Seq<char> {
    hex_lower_spec(blake2b512_of(tx).take(32))
}

/// Whether the digest `d` is among the seen digests `v`.
pub open spec fn contains_digest(v: Seq<Seq<char>>, d: Seq<char>) -> bool {
    exists|i: int| 0 <= i < v.len() && v[i] == d
}

/// The admission decision for a digest: refuse exactly the digests
/// already seen.
pub open spec fn admit_decision(v: Seq<Seq<char>>, d: Seq<char>) -> Result<(), AggrError> {
    if contains_digest(v, d) {
        Err(AggrError::DuplicateSubmission)
    } else {
        Ok(())
    }
}

/// The seen set after recording `d`: unchanged when already present,
/// extended by `d` otherwise.
pub open spec fn record_digest(v: Seq<Seq<char>>, d: Seq<char>) -> Seq<Seq<char>> {
    if contains_digest(v, d) {
        v
    } else {
        v.push(d)
    }
}

/// Once a digest is recorded as submitted, every later admission of the
/// same digest is refused with `DuplicateSubmission`: within one process
/// at most one transaction with a given digest is ever submitted.
pub proof fn lemma_duplicate_submission_rejected(v: Seq<Seq<char>>, d: Seq<char>)
    ensures
        contains_digest(record_digest(v, d), d),
        admit_decision(record_digest(v, d), d) == Err::<(), AggrError>(
            AggrError::DuplicateSubmission,
        ),
{
    if !contains_digest(v, d) {
        assert(record_digest(v, d)[v.len() as int] == d);
    }
}

/// Execution counters and derived rates.
#[derive(Debug, Clone, PartialEq, Eq, Structural)]
pub struct ExecutionStats {
    pub total_executions: u64,
    pub successful_executions: u64,
    pub failed_executions: u64,
    /// Mean effects latency over successful executions, milliseconds.
    pub avg_effects_time_ms: Option<u64>,
    /// Mean checkpoint latency where one was observed, milliseconds.
    pub avg_checkpoint_time_ms: Option<u64>,
    /// Successful share of all executions, in parts per million.
    pub success_rate_ppm: u64,
}

/// Execution engine state: the signing identity, the seen-digest set
/// enforcing at-most-once submission, and the execution counters.
pub struct ExecutionEngine {
    /// The user's address.
    pub user_address: String,
    /// The user's hex-encoded Ed25519 signing key.
    pub secret_key_hex: String,
    /// Whether submissions go over binary RPC rather than JSON-RPC.
    pub use_grpc_execute: bool,
    /// Digests of transactions already submitted in this process.
    pub seen_digests: Vec<String>,
    pub total_executions: u64,
    pub successful_executions: u64,
    pub failed_executions: u64,
    /// Sum of effects latencies over successful executions, milliseconds.
    pub total_effects_time_ms: u64,
    /// Sum of checkpoint latencies where one was observed, milliseconds.
    pub total_checkpoint_time_ms: u64,
    /// Number of executions that carried a checkpoint reference.
    pub checkpoint_count: u64,
}

impl ExecutionEngine {
    /// The seen digests as character sequences.
    pub open spec fn seen_view(self) -> Seq<Seq<char>> {
        self.seen_digests@.map(|i: int, s: String| s@)
    }

    /// Counters never disagree: successes and failures each fit under
    /// the total, together too.
    pub open spec fn wf(self) -> bool {
        self.successful_executions + self.failed_executions <= self.total_executions
    }

    /// A fresh engine: nothing seen, all counters zero.
    pub fn new(user_address: String, secret_key_hex: String, use_grpc_execute: bool) -> (r:
        ExecutionEngine)
        ensures
            r.wf(),
            r.user_address@ == user_address@,
            r.secret_key_hex@ == secret_key_hex@,
            r.use_grpc_execute == use_grpc_execute,
            r.seen_view().len() == 0,
            r.total_executions == 0,
            r.successful_executions == 0,
            r.failed_executions == 0,
            r.total_effects_time_ms == 0,
            r.total_checkpoint_time_ms == 0,
            r.checkpoint_count == 0,
    {
        ExecutionEngine {
            user_address,
            secret_key_hex,
            use_grpc_execute,
            seen_digests: Vec::new(),
            total_executions: 0,
            successful_executions: 0,
            failed_executions: 0,
            total_effects_time_ms: 0,
            total_checkpoint_time_ms: 0,
            checkpoint_count: 0,
        }
    }

    /// The digest of canonical transaction bytes: Blake2b-512 truncated
    /// to 32 bytes, hex encoded.
    pub fn compute_digest(&self, tx_bcs: &[u8]) -> (r: String)
        ensures
            r@ == tx_digest_hex(tx_bcs@),
    {
        let mut data: Vec<u8> = Vec::new();
        crate::signing::push_bytes(&mut data, tx_bcs);
        proof {
            assert(data@ =~= tx_bcs@);
        }
        let hash = crate::signing::blake2b512(&data);
        let digest = crate::signing::take_bytes(&hash, 32);
        hex_encode(&digest)
    }

    /// Start one execution: the total counter moves first, whatever the
    /// outcome will be.
    pub fn begin_execution(&mut self)
        requires
            old(self).wf(),
            old(self).total_executions < u64::MAX,
        ensures
            *final(self) == (ExecutionEngine {
                total_executions: (old(self).total_executions + 1) as u64,
                ..*old(self)
            }),
            final(self).wf(),
            final(self).successful_executions + final(self).failed_executions < final(self).total_executions,
    {
        self.total_executions = self.total_executions + 1;
    }

    /// Whether `digest` was already submitted in this process.
    pub fn digest_seen(&self, digest: &str) -> (r: bool)
        ensures
            r <==> contains_digest(self.seen_view(), digest@),
    {
        let key: String = digest.to_owned();
        let mut i: usize = 0;
        while i < self.seen_digests.len()
            invariant
                i <= self.seen_digests@.len(),
                key@ == digest@,
                forall|j: int| 0 <= j < i ==> self.seen_view()[j] != digest@,
            decreases self.seen_digests@.len() - i,
        {
            if self.seen_digests[i] == key {
                proof {
                    assert(self.seen_view()[i as int] == digest@);
                }
                return true;
            }
            i = i + 1;
        }
        false
    }

    /// Decide whether a digest may be submitted: a digest already seen is
    /// refused with `DuplicateSubmission` and counted as a failure; a
    /// fresh digest passes and changes nothing.
    pub fn admit_digest(&mut self, digest: &str) -> (r: Result<(), AggrError>)
        requires
            old(self).wf(),
            old(self).successful_executions + old(self).failed_executions < old(
                self,
            ).total_executions,
        ensures
            final(self).wf(),
            r == admit_decision(old(self).seen_view(), digest@),
            r is Err ==> *final(self) == (ExecutionEngine {
                failed_executions: (old(self).failed_executions + 1) as u64,
                ..*old(self)
            }),
            r is Ok ==> *final(self) == *old(self),
    {
        if self.digest_seen(digest) {
            self.failed_executions = self.failed_executions + 1;
            Err(AggrError::DuplicateSubmission)
        } else {
            Ok(())
        }
    }

    /// Record a successful submission: remember the digest (inserted
    /// after the submission returned), count the success, and accumulate
    /// the observed latencies.
    pub fn record_success(
        &mut self,
        digest: String,
        effects_time_ms: u64,
        checkpoint_time_ms: Option<u64>,
    )
        requires
            old(self).wf(),
            old(self).successful_executions + old(self).failed_executions < old(
                self,
            ).total_executions,
            old(self).total_effects_time_ms + effects_time_ms <= u64::MAX,
            (checkpoint_time_ms matches Some(c) ==> old(self).total_checkpoint_time_ms + c
                <= u64::MAX && old(self).checkpoint_count < u64::MAX),
        ensures
            final(self).wf(),
            final(self).seen_view() == record_digest(old(self).seen_view(), digest@),
            final(self).successful_executions == old(self).successful_executions + 1,
            final(self).failed_executions == old(self).failed_executions,
            final(self).total_executions == old(self).total_executions,
            final(self).total_effects_time_ms == old(self).total_effects_time_ms
                + effects_time_ms,
            checkpoint_time_ms matches Some(c) ==> final(self).total_checkpoint_time_ms == old(
                self,
            ).total_checkpoint_time_ms + c && final(self).checkpoint_count == old(
                self,
            ).checkpoint_count + 1,
            checkpoint_time_ms is None ==> final(self).total_checkpoint_time_ms == old(
                self,
            ).total_checkpoint_time_ms && final(self).checkpoint_count == old(
                self,
            ).checkpoint_count,
            final(self).user_address == old(self).user_address,
            final(self).secret_key_hex == old(self).secret_key_hex,
            final(self).use_grpc_execute == old(self).use_grpc_execute,
    {
        let ghost d: Seq<char> = digest@;
        if !self.digest_seen(digest.as_str()) {
            let ghost pre = self.seen_view();
            self.seen_digests.push(digest);
            proof {
                assert(self.seen_view() =~= pre.push(d));
            }
        }
        self.successful_executions = self.successful_executions + 1;
        self.total_effects_time_ms = self.total_effects_time_ms + effects_time_ms;
        match checkpoint_time_ms {
            Some(c) => {
                self.total_checkpoint_time_ms = self.total_checkpoint_time_ms + c;
                self.checkpoint_count = self.checkpoint_count + 1;
            },
            None => {},
        }
    }

    /// Count a failed submission.
    pub fn record_failure(&mut self)
        requires
            old(self).wf(),
            old(self).successful_executions + old(self).failed_executions < old(
                self,
            ).total_executions,
        ensures
            final(self).wf(),
            *final(self) == (ExecutionEngine {
                failed_executions: (old(self).failed_executions + 1) as u64,
                ..*old(self)
            }),
    {
        self.failed_executions = self.failed_executions + 1;
    }

    /// The signing set of a sponsored transaction: the user's signature
    /// followed by the sponsor's, both over the same canonical bytes.
    /// Succeeds exactly when both keys are 64 hex digits; each signature
    /// verifies under its signer's public key over the signing pre-image.
    pub fn sign_sponsored_transaction(
        &self,
        tx_bcs: &[u8],
        sponsorship: &crate::sponsorship::SponsorshipManager,
    ) -> (r: Result<Vec<Vec<u8>>, AggrError>)
        ensures
            r is Ok <==> crate::signing::valid_key_hex(self.secret_key_hex@)
                && crate::signing::valid_key_hex(sponsorship.sponsor_key_hex@),
            (r matches Ok(sigs) ==> sigs@.len() == 2 && sigs@[0]@
                == crate::signing::serialized_signature_spec(self.secret_key_hex@, tx_bcs@)
                && sigs@[1]@ == crate::signing::serialized_signature_spec(
                sponsorship.sponsor_key_hex@,
                tx_bcs@,
            )),
            (r matches Ok(sigs) ==> crate::signing::ed25519_verifies(
                crate::signing::ed25519_public_of(
                    crate::signing::hex_decode_spec(self.secret_key_hex@),
                ),
                crate::signing::signing_digest(tx_bcs@),
                sigs@[0]@.subrange(1, 65),
            ) && crate::signing::ed25519_verifies(
                crate::signing::ed25519_public_of(
                    crate::signing::hex_decode_spec(sponsorship.sponsor_key_hex@),
                ),
                crate::signing::signing_digest(tx_bcs@),
                sigs@[1]@.subrange(1, 65),
            )),
            r is Err ==> r->Err_0 == AggrError::Signing,
    {
        let (user_sig, _) = match crate::signing::sign_tx_bcs_ed25519_to_serialized_signature(
            tx_bcs,
            self.secret_key_hex.as_str(),
        ) {
            Ok(p) => p,
            Err(e) => {
                return Err(e);
            },
        };
        let sponsor_sig = match sponsorship.sign_sponsored_transaction(tx_bcs) {
            Ok(s) => s,
            Err(e) => {
                return Err(e);
            },
        };
        let mut sigs: Vec<Vec<u8>> = Vec::new();
        sigs.push(user_sig);
        sigs.push(sponsor_sig);
        Ok(sigs)
    }

    /// Current counters with the derived means and success rate.
    pub fn get_stats(&self) -> (r: ExecutionStats)
        requires
            self.wf(),
        ensures
            r.total_executions == self.total_executions,
            r.successful_executions == self.successful_executions,
            r.failed_executions == self.failed_executions,
            r.avg_effects_time_ms == if self.successful_executions > 0 {
                Some((self.total_effects_time_ms as int / self.successful_executions as int) as u64)
            } else {
                Option::<u64>::None
            },
            r.avg_checkpoint_time_ms == if self.checkpoint_count > 0 {
                Some((self.total_checkpoint_time_ms as int / self.checkpoint_count as int) as u64)
            } else {
                Option::<u64>::None
            },
            r.success_rate_ppm == if self.total_executions > 0 {
                self.successful_executions as int * 1_000_000 / self.total_executions as int
            } else {
                0int
            },
            r.success_rate_ppm <= 1_000_000,
    {
        let avg_effects_time_ms: Option<u64> = if self.successful_executions > 0 {
            proof {
                vstd::arithmetic::div_mod::lemma_div_nonincreasing(
                    self.total_effects_time_ms as int,
                    self.successful_executions as int,
                );
            }
            Some(self.total_effects_time_ms / self.successful_executions)
        } else {
            None
        };
        let avg_checkpoint_time_ms: Option<u64> = if self.checkpoint_count > 0 {
            proof {
                vstd::arithmetic::div_mod::lemma_div_nonincreasing(
                    self.total_checkpoint_time_ms as int,
                    self.checkpoint_count as int,
                );
            }
            Some(self.total_checkpoint_time_ms / self.checkpoint_count)
        } else {
            None
        };
        let success_rate_ppm: u64 = if self.total_executions > 0 {
            proof {
                vstd::arithmetic::div_mod::lemma_div_is_ordered(
                    self.successful_executions as int * 1_000_000,
                    self.total_executions as int * 1_000_000,
                    self.total_executions as int,
                );
                vstd::arithmetic::div_mod::lemma_div_multiples_vanish(
                    1_000_000,
                    self.total_executions as int,
                );
                vstd::arithmetic::mul::lemma_mul_is_commutative(
                    self.total_executions as int,
                    1_000_000,
                );
                vstd::arithmetic::mul::lemma_mul_inequality(
                    self.successful_executions as int,
                    self.total_executions as int,
                    1_000_000,
                );
            }
            (((self.successful_executions as u128) * 1_000_000) / (self.total_executions as u128))
                as u64
        } else {
            0
        };
        ExecutionStats {
            total_executions: self.total_executions,
            successful_executions: self.successful_executions,
            failed_executions: self.failed_executions,
            avg_effects_time_ms,
            avg_checkpoint_time_ms,
            success_rate_ppm,
        }
    }
}

/// The retry backoff schedule: exponential from 100 ms with multiplier
/// 2, capped at 5 s per wait and 30 s in total.
pub struct BackoffPolicy {
    /// The next wait, milliseconds.
    pub interval_ms: u64,
    /// Wait time consumed so far, milliseconds.
    pub elapsed_ms: u64,
    /// Cap on any single wait.
    pub max_interval_ms: u64,
    /// Total wait budget.
    pub max_elapsed_ms: u64,
}

impl BackoffPolicy {
    pub open spec fn wf(self) -> bool {
        &&& self.interval_ms <= self.max_interval_ms
        &&& self.max_interval_ms <= 1_000_000
        &&& self.elapsed_ms <= self.max_elapsed_ms + self.max_interval_ms
        &&& self.max_elapsed_ms <= 1_000_000_000
    }

    /// The standard schedule: 100 ms initial, 5 s cap, 30 s budget.
    pub fn new() -> (r: BackoffPolicy)
        ensures
            r.wf(),
            r.interval_ms == 100,
            r.elapsed_ms == 0,
            r.max_interval_ms == 5000,
            r.max_elapsed_ms == 30_000,
    {
        BackoffPolicy { interval_ms: 100, elapsed_ms: 0, max_interval_ms: 5000, max_elapsed_ms: 30_000 }
    }

    /// The next wait before another attempt, or `None` once the total
    /// budget is consumed. Each granted wait doubles the next, up to the
    /// cap.
    pub fn next_delay(&mut self) -> (r: Option<u64>)
        requires
            old(self).wf(),
        ensures
            final(self).wf(),
            old(self).elapsed_ms >= old(self).max_elapsed_ms ==> r is None && *final(self) == *old(
                self,
            ),
            old(self).elapsed_ms < old(self).max_elapsed_ms ==> r == Some(old(self).interval_ms)
                && final(self).elapsed_ms == old(self).elapsed_ms + old(self).interval_ms && final(self).interval_ms == if 2 * old(self).interval_ms <= old(self).max_interval_ms {
                2 * old(self).interval_ms
            } else {
                old(self).max_interval_ms as int
            },
            final(self).max_interval_ms == old(self).max_interval_ms,
            final(self).max_elapsed_ms == old(self).max_elapsed_ms,
    {
        if self.elapsed_ms >= self.max_elapsed_ms {
            return None;
        }
        let d = self.interval_ms;
        self.elapsed_ms = self.elapsed_ms + d;
        self.interval_ms = if d <= self.max_interval_ms / 2 {
            2 * d
        } else {
            self.max_interval_ms
        };
        Some(d)
    }
}

} // verus!
