//! Transaction-aggregating router core: route scoring and selection,
//! execution bookkeeping with submission idempotency, sponsorship budgets,
//! endpoint latency ranking, and admission control.
//!
//! All quantities with a fractional meaning (prices, sizes, fee rates) are
//! fixed-point integers scaled by [`quant::SCALE`] (1e9 units per whole).

pub mod book;
pub mod config;
pub mod control;
pub mod errors;
pub mod execution;
pub mod indexer;
pub mod quant;
pub mod router;
pub mod routes;
pub mod selector;
pub mod signing;
pub mod state;
pub mod sponsorship;
pub mod validation;
pub mod validator;
pub mod venues;
