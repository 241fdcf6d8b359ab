//! Error taxonomy of the router core.

use vstd::prelude::*;

verus! {

/// Errors raised by the router core, by kind.
///
/// `Transport` and `Provider` are transient and retried by the submission
/// loop; the rest are permanent for the request that raised them.
#[derive(Debug, Clone, PartialEq, Eq, Structural)]
pub enum AggrError {
    /// Network-level failure while talking to an upstream.
    Transport,
    /// The upstream returned a structured error.
    Provider,
    /// Key malformed or signing failed.
    Signing,
    /// Command assembly, pool metadata, or quantization failed.
    BuildTx,
    /// The transaction digest was already submitted in this process.
    DuplicateSubmission,
    /// Sponsorship refused: the user's budget does not cover the request.
    BudgetExceeded,
    /// Sponsorship refused: abuse limits exceeded for the user.
    AbuseDetected,
    /// The selector found no viable route.
    NoRoutes,
    /// The route variant is not supported by the compiler.
    UnsupportedRoute,
    /// The retry budget was consumed without a successful submission.
    BackoffExhausted,
}

} // verus!
