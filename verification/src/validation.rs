//! Pre-trade validation of limit-order requests.

use vstd::prelude::*;
use crate::errors::AggrError;
use crate::quant::{price_quantizable, size_quantizable, PoolParams};
use crate::routes::LimitReq;
use vstd::string::StringExecFns;

verus! {

/// Recorded messages joined with `"; "`, as a failure reports them.
pub open spec fn joined_messages(msgs: Seq<Seq<char>>) -> Seq<char>
    decreases msgs.len(),
{
    if msgs.len() == 0 {
        Seq::empty()
    } else if msgs.len() == 1 {
        msgs[0]
    } else {
        joined_messages(msgs.drop_last()) + "; "@ + msgs.last()
    }
}

/// Outcome of pre-trade validation: valid until an error is recorded.
#[derive(Debug)]
pub struct ValidationResult {
    pub is_valid: bool,
    pub errors: Vec<String>,
}

impl ValidationResult {
    /// Valid so far, no errors recorded.
    pub fn new() -> (r: ValidationResult)
        ensures
            r.is_valid,
            r.errors@.len() == 0,
    {
        ValidationResult { is_valid: true, errors: Vec::new() }
    }

    /// Record one error; the result is invalid from then on.
    pub fn add_error(&mut self, error: String)
        ensures
            !final(self).is_valid,
            final(self).errors@ == old(self).errors@.push(error),
    {
        self.is_valid = false;
        self.errors.push(error);
    }

    /// The recorded error messages joined with `"; "`.
    pub fn error_message(&self) -> (r: String)
        ensures
            r@ == joined_messages(self.errors@.map(|i: int, s: String| s@)),
    {
        let ghost msgs: Seq<Seq<char>> = self.errors@.map(|i: int, s: String| s@);
        let mut out = String::new();
        let mut i: usize = 0;
        proof {
            assert(msgs.take(0) =~= Seq::<Seq<char>>::empty());
        }
        while i < self.errors.len()
            invariant
                i <= self.errors@.len(),
                msgs == self.errors@.map(|j: int, s: String| s@),
                out@ == joined_messages(msgs.take(i as int)),
            decreases self.errors@.len() - i,
        {
            proof {
                assert(msgs.take(i + 1).drop_last() =~= msgs.take(i as int));
                assert(msgs.take(i + 1).last() == msgs[i as int]);
            }
            if i > 0 {
                out.append("; ");
                out.append(self.errors[i].as_str());
                proof {
                    assert(out@ =~= joined_messages(msgs.take(i as int)) + "; "@ + msgs[i as int]);
                }
            } else {
                out.append(self.errors[i].as_str());
                proof {
                    assert(out@ =~= msgs[0]);
                }
            }
            i = i + 1;
        }
        proof {
            assert(msgs.take(msgs.len() as int) =~= msgs);
        }
        out
    }

    /// `Ok` exactly when no error was recorded; otherwise the recorded
    /// errors, as a `BuildTx` failure.
    pub fn into_result(self) -> (r: Result<(), AggrError>)
        ensures
            r is Ok <==> self.is_valid,
            r is Err ==> r->Err_0 == AggrError::BuildTx,
    {
        if self.is_valid {
            Ok(())
        } else {
            Err(AggrError::BuildTx)
        }
    }
}

/// Validate a limit order against its pool's constraints.
///
/// Absent pool parameters record one error. Otherwise the price must
/// quantize against the tick size and the quantity against the lot and
/// minimum size; each failure records one error. The result is valid
/// exactly when none failed.
pub fn validate_limit_order(req: &LimitReq, pool_params: Option<&PoolParams>) -> (r:
    ValidationResult)
    ensures
        pool_params is None ==> !r.is_valid && r.errors@.len() == 1,
        (pool_params matches Some(p) ==> (r.is_valid <==> (price_quantizable(
            req.price as int,
            p.tick_size as int,
        ) && size_quantizable(req.quantity as int, p.lot_size as int, p.min_size as int)))),
{
    let mut result = ValidationResult::new();
    let params = match pool_params {
        Some(p) => p,
        None => {
            result.add_error("failed to fetch pool parameters".to_owned());
            return result;
        },
    };
    match crate::quant::quantize_price(req.price, params.tick_size) {
        Ok(_) => {},
        Err(_) => {
            result.add_error("price quantization failed".to_owned());
        },
    }
    match crate::quant::quantize_size(req.quantity, params.lot_size, params.min_size) {
        Ok(_) => {},
        Err(_) => {
            result.add_error("size quantization failed".to_owned());
        },
    }
    result
}

} // verus!
