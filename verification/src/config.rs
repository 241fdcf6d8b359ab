//! Configuration model and the derivation of venue settings from it.
//!
//! The surrounding program loads these values from the environment; the
//! derivation rules live here.

use vstd::prelude::*;
use crate::errors::AggrError;
use vstd::string::StrSliceExecFns;

verus! {

/// The ASCII code of `c`, upper case folded to lower.
pub open spec fn ascii_lower(c: char) -> int {
    if 65 <= c as int && c as int <= 90 {
        c as int + 32
    } else {
        c as int
    }
}

/// Case-insensitive (ASCII) equality of two character strings.
pub open spec fn eq_ignore_ascii_case(a: Seq<char>, b: Seq<char>) -> bool {
    a.len() == b.len() && forall|i: int|
        0 <= i < a.len() ==> ascii_lower(#[trigger] a[i]) == ascii_lower(#[trigger] b[i])
}

/// Compare two strings ignoring ASCII case.
pub fn str_eq_ignore_case(a: &str, b: &str) -> (r: bool)
    ensures
        r <==> eq_ignore_ascii_case(a@, b@),
{
    let na: usize = a.unicode_len();
    let nb: usize = b.unicode_len();
    if na != nb {
        return false;
    }
    let mut i: usize = 0;
    while i < na
        invariant
            i <= na,
            na == a@.len(),
            na == b@.len(),
            forall|j: int| 0 <= j < i ==> ascii_lower(#[trigger] a@[j]) == ascii_lower(
                #[trigger] b@[j],
            ),
        decreases na - i,
    {
        let ca: u32 = a.get_char(i) as u32;
        let cb: u32 = b.get_char(i) as u32;
        let la: u32 = if 65 <= ca && ca <= 90 {
            ca + 32
        } else {
            ca
        };
        let lb: u32 = if 65 <= cb && cb <= 90 {
            cb + 32
        } else {
            cb
        };
        if la != lb {
            return false;
        }
        i = i + 1;
    }
    true
}

/// Venue environment selector.
#[derive(Debug, Clone, PartialEq, Eq, Structural)]
pub enum DeepBookEnv {
    Mainnet,
    Testnet,
}

/// Application configuration, plain values as loaded from the
/// environment.
#[derive(Debug, Clone)]
pub struct AppConfig {
    /// Binary-RPC full-node URL.
    pub grpc_endpoint: String,
    /// HTTP JSON-RPC URL.
    pub jsonrpc_endpoint: String,
    /// Optional indexer URL.
    pub graphql_endpoint: Option<String>,
    /// Optional venue indexer URL.
    pub deepbook_indexer: Option<String>,
    /// The user's on-chain address.
    pub address: String,
    /// Hex-encoded 32-byte Ed25519 signing key.
    pub ed25519_secret_hex: String,
    /// Concurrency limit.
    pub max_inflight: usize,
    /// Whether to submit over binary RPC.
    pub use_grpc_execute: Option<bool>,
    /// Venue environment name; defaults to mainnet.
    pub deepbook_env: Option<String>,
    /// Balance-manager object identifier.
    pub deepbook_manager_object: Option<String>,
    /// Label under which the balance manager is registered.
    pub deepbook_manager_label: Option<String>,
    /// Sponsorship settings, when sponsoring is enabled.
    pub sponsorship: Option<SponsorshipConfig>,
}

/// Derived venue adapter settings.
#[derive(Debug, Clone, PartialEq, Eq)]
pub struct DeepBookSettings {
    pub indexer: String,
    pub environment: DeepBookEnv,
    pub balance_manager_object: String,
    pub balance_manager_label: String,
}

/// Sponsorship configuration.
#[derive(Debug, Clone)]
pub struct SponsorshipConfig {
    /// Sponsor's on-chain address.
    pub sponsor_address: String,
    /// Hex-encoded 32-byte Ed25519 sponsor signing key.
    pub sponsor_key_hex: String,
    /// Per-user budget in gas units.
    pub per_user_budget: Option<u64>,
    /// Per-transaction limit in gas units.
    pub per_tx_limit: Option<u64>,
    /// Budget window in seconds; `None` means no reset.
    pub budget_window_seconds: Option<u64>,
    /// Max transactions per user per abuse window.
    pub max_tx_per_window: Option<u64>,
    /// Max gas per user per abuse window.
    pub max_gas_per_window: Option<u64>,
    /// Abuse window in seconds.
    pub abuse_window_seconds: Option<u64>,
}

impl AppConfig {
    /// Derive venue settings.
    ///
    /// No indexer configured means the venue is disabled (`Ok(None)`).
    /// With an indexer, the balance-manager object is required; the
    /// label defaults to `MANAGER_1`; the environment name (default
    /// mainnet) must read, ignoring case, `mainnet`, `prod`, or
    /// `testnet`.
    pub fn deepbook_settings(&self) -> (r: Result<Option<DeepBookSettings>, AggrError>)
        ensures
            self.deepbook_indexer is None ==> (r matches Ok(o) && o is None),
            (self.deepbook_indexer matches Some(ix) ==> match self.deepbook_manager_object {
                None => r == Err::<Option<DeepBookSettings>, AggrError>(AggrError::BuildTx),
                Some(obj) => ({
                    let env_ok_mainnet = match self.deepbook_env {
                        None => true,
                        Some(e) => eq_ignore_ascii_case(e@, "mainnet"@) || eq_ignore_ascii_case(
                            e@,
                            "prod"@,
                        ),
                    };
                    let env_ok_testnet = match self.deepbook_env {
                        None => false,
                        Some(e) => eq_ignore_ascii_case(e@, "testnet"@),
                    };
                    if env_ok_mainnet || env_ok_testnet {
                        (r matches Ok(o) && o matches Some(s) && s.indexer@ == ix@
                            && s.balance_manager_object@ == obj@ && s.environment == (
                        if env_ok_mainnet {
                            DeepBookEnv::Mainnet
                        } else {
                            DeepBookEnv::Testnet
                        }) && s.balance_manager_label@ == (match self.deepbook_manager_label {
                            Some(l) => l@,
                            None => "MANAGER_1"@,
                        }))
                    } else {
                        r == Err::<Option<DeepBookSettings>, AggrError>(AggrError::BuildTx)
                    }
                }),
            }),
    {
        let indexer: &String = match &self.deepbook_indexer {
            Some(ix) => ix,
            None => {
                return Ok(None);
            },
        };
        let manager_object: &String = match &self.deepbook_manager_object {
            Some(obj) => obj,
            None => {
                return Err(AggrError::BuildTx);
            },
        };
        let label: String = match &self.deepbook_manager_label {
            Some(l) => l.clone(),
            None => "MANAGER_1".to_owned(),
        };
        let environment: DeepBookEnv = match &self.deepbook_env {
            None => DeepBookEnv::Mainnet,
            Some(e) => {
                if str_eq_ignore_case(e.as_str(), "mainnet") || str_eq_ignore_case(
                    e.as_str(),
                    "prod",
                ) {
                    DeepBookEnv::Mainnet
                } else if str_eq_ignore_case(e.as_str(), "testnet") {
                    DeepBookEnv::Testnet
                } else {
                    return Err(AggrError::BuildTx);
                }
            },
        };
        Ok(
            Some(
                DeepBookSettings {
                    indexer: indexer.clone(),
                    environment,
                    balance_manager_object: manager_object.clone(),
                    balance_manager_label: label,
                },
            ),
        )
    }
}

} // verus!
