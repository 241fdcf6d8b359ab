//! Venue-facing order preparation: parsing client order identifiers,
//! quantizing orders, and compiling route variants into the command
//! plans a venue adapter assembles into a transaction.

use vstd::prelude::*;
use crate::errors::AggrError;
use crate::quant::{
    price_quantizable, quantize_price, quantize_size, round_down, size_quantizable, PoolParams,
};
use crate::routes::{LimitReq, Route};
use vstd::arithmetic::div_mod::lemma_fundamental_div_mod;
use vstd::string::StrSliceExecFns;

verus! {

/// Expiration stamp meaning "never expires".
pub const EXPIRATION_NEVER_MS: u64 = u64::MAX;

/// Order side.
#[derive(Debug, Clone, PartialEq, Eq, Structural)]
pub enum Side {
    Bid,
    Ask,
}

/// A raw venue limit order in on-chain integer units.
#[derive(Debug, Clone)]
pub struct LimitOrder {
    /// Pool identifier.
    pub pool_id: String,
    /// Order side.
    pub side: Side,
    /// Price in quote units scaled to the pool's tick size.
    pub price: u128,
    /// Size in base units.
    pub size: u128,
    /// Pay the venue fee in the venue's native token.
    pub pay_with_deep: bool,
}

impl LimitOrder {
    /// The router's request for this raw order. The on-chain integers
    /// are already in fixed-point units; they must fit the router's
    /// range, else `BuildTx`.
    pub fn to_limit_req(&self, client_order_id: String) -> (r: Result<LimitReq, AggrError>)
        ensures
            r is Ok <==> self.price <= u64::MAX && self.size <= u64::MAX,
            (r matches Ok(q) ==> q.pool@ == self.pool_id@ && q.price == self.price && q.quantity
                == self.size && q.is_bid == (self.side is Bid) && q.client_order_id@
                == client_order_id@ && q.pay_with_deep == self.pay_with_deep && q.expiration_ms
                is None),
            r is Err ==> r->Err_0 == AggrError::BuildTx,
    {
        if self.price > u64::MAX as u128 || self.size > u64::MAX as u128 {
            return Err(AggrError::BuildTx);
        }
        Ok(LimitReq {
            pool: self.pool_id.clone(),
            price: self.price as u64,
            quantity: self.size as u64,
            is_bid: match self.side {
                Side::Bid => true,
                Side::Ask => false,
            },
            client_order_id,
            pay_with_deep: self.pay_with_deep,
            expiration_ms: None,
        })
    }
}

/// Whether `c` is an ASCII decimal digit.
pub open spec fn is_dec_digit(c: char) -> bool {
    48 <= c as int && c as int <= 57
}

/// Whether every character of `s` is a decimal digit.
pub open spec fn dec_digits(s: Seq<char>) -> bool {
    forall|i: int| 0 <= i < s.len() ==> is_dec_digit(#[trigger] s[i])
}

/// The value of a decimal digit string.
pub open spec fn dec_val(s: Seq<char>) -> int
    decreases s.len(),
{
    if s.len() == 0 {
        0
    } else {
        dec_val(s.drop_last()) * 10 + (s.last() as int - 48)
    }
}

/// The digits of a decimal literal: an optional leading `+` is dropped.
pub open spec fn u64_parse_body(s: Seq<char>) -> Seq<char> {
    if s.len() > 0 && s[0] as int == 43 {
        s.skip(1)
    } else {
        s
    }
}

/// Whether `s` parses as a `u64`: after an optional leading `+`, a
/// non-empty digit string whose value fits.
pub open spec fn u64_parseable(s: Seq<char>) -> bool {
    let b = u64_parse_body(s);
    b.len() > 0 && dec_digits(b) && dec_val(b) <= u64::MAX
}

/// A digit string's value is non-negative, and no prefix exceeds the
/// whole.
proof fn lemma_dec_prefix_le(s: Seq<char>, i: int)
    requires
        dec_digits(s),
        0 <= i <= s.len(),
    ensures
        0 <= dec_val(s.take(i)) <= dec_val(s),
    decreases s.len() - i,
{
    if i == s.len() {
        assert(s.take(i) =~= s);
        lemma_dec_val_nonneg(s);
    } else {
        assert(s.take(i + 1).drop_last() =~= s.take(i));
        assert(s.take(i + 1).last() == s[i]);
        lemma_dec_prefix_le(s, i + 1);
        lemma_dec_val_nonneg(s.take(i));
        assert(dec_val(s.take(i + 1)) == dec_val(s.take(i)) * 10 + (s[i] as int - 48));
    }
}

proof fn lemma_dec_val_nonneg(s: Seq<char>)
    requires
        dec_digits(s),
    ensures
        dec_val(s) >= 0,
    decreases s.len(),
{
    if s.len() > 0 {
        assert(dec_digits(s.drop_last()));
        lemma_dec_val_nonneg(s.drop_last());
        assert(is_dec_digit(s[s.len() - 1]));
    }
}

/// Parse a decimal `u64`, accepting an optional leading `+`.
///
/// Fails with `BuildTx` exactly when the input is empty after the sign,
/// holds a non-digit, or exceeds the `u64` range.
pub fn parse_u64(s: &str) -> (r: Result<u64, AggrError>)
    ensures
        r is Ok <==> u64_parseable(s@),
        (r matches Ok(v) ==> v == dec_val(u64_parse_body(s@))),
        r is Err ==> r->Err_0 == AggrError::BuildTx,
{
    let n: usize = s.unicode_len();
    let start: usize = if n > 0 && s.get_char(0) == '+' {
        1
    } else {
        0
    };
    let ghost body: Seq<char> = u64_parse_body(s@);
    proof {
        if start == 1 {
            assert(body =~= s@.skip(1));
        } else {
            assert(body =~= s@);
        }
    }
    if start == n {
        return Err(AggrError::BuildTx);
    }
    let mut acc: u64 = 0;
    let mut i: usize = start;
    proof {
        assert(body.take(0) =~= Seq::<char>::empty());
    }
    while i < n
        invariant
            start <= i <= n,
            n == s@.len(),
            start <= 1,
            body == u64_parse_body(s@),
            body.len() == n - start,
            forall|j: int| 0 <= j < body.len() ==> body[j] == s@[j + start],
            dec_digits(body.take(i - start)),
            acc == dec_val(body.take(i - start)),
        decreases n - i,
    {
        let c: char = s.get_char(i);
        let cv: u32 = c as u32;
        proof {
            assert(body[i - start] == s@[i as int]);
        }
        if cv < 48 || cv > 57 {
            proof {
                assert(!is_dec_digit(body[i - start]));
            }
            return Err(AggrError::BuildTx);
        }
        let d: u64 = (cv - 48) as u64;
        proof {
            assert(body.take(i - start + 1).drop_last() =~= body.take(i - start));
            assert(body.take(i - start + 1).last() == body[i - start]);
        }
        if acc > (u64::MAX - d) / 10 {
            proof {
                lemma_fundamental_div_mod(u64::MAX - d, 10);
                assert(dec_val(body.take(i - start + 1)) == acc * 10 + d);
                assert(dec_val(body.take(i - start + 1)) > u64::MAX);
                assert(dec_digits(body) ==> dec_val(body) >= dec_val(body.take(i - start + 1)))
                    by {
                    if dec_digits(body) {
                        lemma_dec_prefix_le(body, i - start + 1);
                    }
                }
            }
            return Err(AggrError::BuildTx);
        }
        acc = acc * 10 + d;
        i = i + 1;
    }
    proof {
        assert(body.take(n - start) =~= body);
    }
    Ok(acc)
}

/// A quantized, parsed limit-order command ready for the venue adapter.
#[derive(Debug, Clone, PartialEq, Eq)]
pub struct PlaceOrderCommand {
    /// Pool identifier.
    pub pool: String,
    /// Parsed client order identifier.
    pub client_order_id: u64,
    /// Quantized price.
    pub price: u64,
    /// Quantized size.
    pub quantity: u64,
    pub is_bid: bool,
    /// Expiration, `EXPIRATION_NEVER_MS` when the request gave none.
    pub expiration_ms: u64,
    pub pay_with_deep: bool,
}

/// Whether a request can be prepared against pool constraints: price and
/// size quantize, and the client order identifier parses.
pub open spec fn place_command_ok(req: LimitReq, params: PoolParams) -> bool {
    &&& price_quantizable(req.price as int, params.tick_size as int)
    &&& size_quantizable(req.quantity as int, params.lot_size as int, params.min_size as int)
    &&& u64_parseable(req.client_order_id@)
}

/// Whether `c` is exactly the prepared command for `req` under `params`.
pub open spec fn is_place_for(c: PlaceOrderCommand, req: LimitReq, params: PoolParams) -> bool {
    &&& c.pool@ == req.pool@
    &&& c.client_order_id == dec_val(u64_parse_body(req.client_order_id@))
    &&& c.price == round_down(req.price as int, params.tick_size as int)
    &&& c.quantity == round_down(req.quantity as int, params.lot_size as int)
    &&& c.is_bid == req.is_bid
    &&& c.expiration_ms == (match req.expiration_ms {
        Some(e) => e,
        None => EXPIRATION_NEVER_MS,
    })
    &&& c.pay_with_deep == req.pay_with_deep
}

/// Quantize and parse one limit-order request. Fails with `BuildTx`
/// exactly when the price or size cannot be quantized or the client
/// order identifier does not parse.
pub fn prepare_limit_order(req: &LimitReq, params: &PoolParams) -> (r: Result<
    PlaceOrderCommand,
    AggrError,
>)
    ensures
        r is Ok <==> place_command_ok(*req, *params),
        (r matches Ok(c) ==> is_place_for(c, *req, *params)),
        r is Err ==> r->Err_0 == AggrError::BuildTx,
{
    let price = match quantize_price(req.price, params.tick_size) {
        Ok(p) => p,
        Err(e) => {
            return Err(e);
        },
    };
    let quantity = match quantize_size(req.quantity, params.lot_size, params.min_size) {
        Ok(q) => q,
        Err(e) => {
            return Err(e);
        },
    };
    let client_order_id = match parse_u64(req.client_order_id.as_str()) {
        Ok(v) => v,
        Err(e) => {
            return Err(e);
        },
    };
    let expiration_ms = match req.expiration_ms {
        Some(e) => e,
        None => EXPIRATION_NEVER_MS,
    };
    Ok(PlaceOrderCommand {
        pool: req.pool.clone(),
        client_order_id,
        price,
        quantity,
        is_bid: req.is_bid,
        expiration_ms,
        pay_with_deep: req.pay_with_deep,
    })
}

/// The command plan a route compiles to.
#[derive(Debug, Clone, PartialEq, Eq)]
pub enum CompilePlan {
    /// Place one limit order.
    PlaceOrder(PlaceOrderCommand),
    /// Cancel a prior order, then place a replacement, atomically.
    CancelAndPlace { pool: String, cancel_order_id: u128, place: PlaceOrderCommand },
}

/// Compile a route into its command plan.
///
/// A single-venue order, or a multi-venue split holding one, prepares a
/// placement; an empty split fails with `BuildTx`. A cancel-replace
/// needs the prior order's identifier (resolved from its digest by the
/// venue); without one it fails with `BuildTx`. Flash-loan routes fail
/// with `UnsupportedRoute`.
pub fn compile_route_commands(
    route: &Route,
    params: &PoolParams,
    prior_order_id: Option<u128>,
) -> (r: Result<CompilePlan, AggrError>)
    ensures
        (route matches Route::DeepBookSingle(q) ==> ((r is Ok <==> place_command_ok(*q, *params))
            && (r matches Ok(c) ==> c matches CompilePlan::PlaceOrder(p) && is_place_for(
            p,
            *q,
            *params,
        )))),
        (route matches Route::MultiVenueSplit { deepbook: dq } ==> match dq {
            Some(q) => (r is Ok <==> place_command_ok(*q, *params)) && (r matches Ok(c)
                ==> c matches CompilePlan::PlaceOrder(p) && is_place_for(p, *q, *params)),
            None => r == Err::<CompilePlan, AggrError>(AggrError::BuildTx),
        }),
        (route matches Route::CancelReplace { cancel_digest: _, replace: q } ==> match prior_order_id {
            Some(id) => (r is Ok <==> place_command_ok(*q, *params)) && (r matches Ok(c)
                ==> c matches CompilePlan::CancelAndPlace {
                pool: pl,
                cancel_order_id: cid,
                place: p,
            } && pl@ == q.pool@ && cid == id && is_place_for(p, *q, *params)),
            None => r == Err::<CompilePlan, AggrError>(AggrError::BuildTx),
        }),
        (route is FlashLoanArb ==> r == Err::<CompilePlan, AggrError>(AggrError::UnsupportedRoute)),
{
    match route {
        Route::DeepBookSingle(q) => {
            let c = prepare_limit_order(q, params)?;
            Ok(CompilePlan::PlaceOrder(c))
        },
        Route::MultiVenueSplit { deepbook } => {
            match deepbook {
                Some(q) => {
                    let c = prepare_limit_order(q, params)?;
                    Ok(CompilePlan::PlaceOrder(c))
                },
                None => Err(AggrError::BuildTx),
            }
        },
        Route::CancelReplace { cancel_digest: _, replace } => {
            match prior_order_id {
                Some(id) => {
                    let c = prepare_limit_order(replace, params)?;
                    Ok(
                        CompilePlan::CancelAndPlace {
                            pool: replace.pool.clone(),
                            cancel_order_id: id,
                            place: c,
                        },
                    )
                },
                None => Err(AggrError::BuildTx),
            }
        },
        Route::FlashLoanArb {  } => Err(AggrError::UnsupportedRoute),
    }
}

} // verus!
