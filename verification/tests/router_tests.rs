use ultra_aggr::config::{AppConfig, DeepBookEnv};
use ultra_aggr::errors::AggrError;
use ultra_aggr::execution::ExecutionEngine;
use ultra_aggr::indexer::{filter_transactions_by_sender, SenderAddress, Transaction};
use ultra_aggr::router::{
    apply_latency_update, plan_view, quote_view, route_kind_label, LimitOrderRequest, Router,
    UpdateLatencyRequest,
};
use ultra_aggr::routes::{Route, RoutePlan, RouteScore};
use ultra_aggr::selector::RouteSelector;
use ultra_aggr::state::CheckpointState;

fn base_config() -> AppConfig {
    AppConfig {
        grpc_endpoint: "https://node.example:443".to_string(),
        jsonrpc_endpoint: "https://node.example:443".to_string(),
        graphql_endpoint: None,
        deepbook_indexer: Some("https://indexer.example".to_string()),
        address: "0xuser".to_string(),
        ed25519_secret_hex: "ab".repeat(32),
        max_inflight: 16,
        use_grpc_execute: Some(false),
        deepbook_env: None,
        deepbook_manager_object: Some("0xmanager".to_string()),
        deepbook_manager_label: None,
        sponsorship: None,
    }
}

#[test]
fn deepbook_settings_defaults() {
    let s = base_config().deepbook_settings().unwrap().unwrap();
    assert_eq!(s.indexer, "https://indexer.example");
    assert_eq!(s.environment, DeepBookEnv::Mainnet);
    assert_eq!(s.balance_manager_object, "0xmanager");
    assert_eq!(s.balance_manager_label, "MANAGER_1");
}

#[test]
fn deepbook_settings_env_matching_is_case_insensitive() {
    let mut c = base_config();
    c.deepbook_env = Some("TESTNET".to_string());
    assert_eq!(
        c.deepbook_settings().unwrap().unwrap().environment,
        DeepBookEnv::Testnet
    );
    c.deepbook_env = Some("Prod".to_string());
    assert_eq!(
        c.deepbook_settings().unwrap().unwrap().environment,
        DeepBookEnv::Mainnet
    );
    c.deepbook_env = Some("devnet".to_string());
    assert_eq!(c.deepbook_settings(), Err(AggrError::BuildTx));
}

#[test]
fn deepbook_settings_disabled_without_indexer() {
    let mut c = base_config();
    c.deepbook_indexer = None;
    assert!(c.deepbook_settings().unwrap().is_none());
}

#[test]
fn deepbook_settings_requires_manager_object() {
    let mut c = base_config();
    c.deepbook_manager_object = None;
    assert_eq!(c.deepbook_settings(), Err(AggrError::BuildTx));
}

#[test]
fn limit_order_request_converts_with_defaults() {
    let r = LimitOrderRequest {
        pool: "SUI_USDC".to_string(),
        price: 5,
        quantity: 6,
        is_bid: true,
        client_order_id: "9".to_string(),
        pay_with_deep: None,
        expiration_ms: Some(7),
    };
    let q = r.to_limit_req();
    assert_eq!(q.pool, "SUI_USDC");
    assert!(!q.pay_with_deep);
    assert_eq!(q.expiration_ms, Some(7));
}

fn plan_with_cost(c: u64) -> RoutePlan {
    RoutePlan {
        route: Route::MultiVenueSplit { deepbook: None },
        score: RouteScore::new(c, 1, 2, 3, 4),
        expected_latency_ms: 400,
        uses_shared_objects: true,
        estimated_gas: 10_000_000,
    }
}

#[test]
fn plan_views_flatten_scores() {
    let p = plan_with_cost(100);
    let v = plan_view(&p);
    assert_eq!(v.route_type, "MultiVenueSplit");
    assert_eq!(v.total_cost, 110);
    assert_eq!(v.l2_price, 100);
    assert_eq!(v.slippage, 1);
    assert_eq!(v.gas_cost, 2);
    assert_eq!(v.latency_penalty, 3);
    assert_eq!(v.risk_factor, 4);
    assert_eq!(v.expected_latency_ms, 400);
    assert!(v.uses_shared_objects);
    assert_eq!(v.estimated_gas, 10_000_000);
}

#[test]
fn quote_view_keeps_order() {
    let selector = RouteSelector::new(100, 400);
    let sel = selector
        .select_route(vec![plan_with_cost(30), plan_with_cost(10)])
        .unwrap();
    let v = quote_view(&sel);
    assert_eq!(v.plan.total_cost, 20);
    assert_eq!(v.alternatives.len(), 1);
    assert_eq!(v.alternatives[0].total_cost, 40);
}

#[test]
fn route_labels_name_variants() {
    assert_eq!(route_kind_label(&Route::FlashLoanArb {}), "FlashLoanArb");
    assert_eq!(
        route_kind_label(&Route::MultiVenueSplit { deepbook: None }),
        "MultiVenueSplit"
    );
}

#[test]
fn latency_update_keeps_absent_fields() {
    let mut s = RouteSelector::new(100, 400);
    apply_latency_update(
        &mut s,
        &UpdateLatencyRequest { base_latency_ms: Some(150), shared_latency_ms: None },
    );
    assert_eq!(s.get_latency_estimates(), (150, 400));
}

#[test]
fn router_exposes_selector_and_executor() {
    let router = Router::new(
        RouteSelector::new(100, 400),
        ExecutionEngine::new("0xuser".to_string(), "ab".repeat(32), true),
    );
    assert_eq!(router.selector().get_latency_estimates(), (100, 400));
    assert_eq!(router.executor().get_stats().total_executions, 0);
}

#[test]
fn checkpoint_cursor_advances() {
    let mut s = CheckpointState::new();
    assert_eq!(s.last_cursor(), None);
    s.advance(41);
    s.advance(42);
    assert_eq!(s.last_cursor(), Some(42));
}

fn tx(digest: &str, sender: Option<&str>) -> Transaction {
    Transaction {
        digest: digest.to_string(),
        effects: None,
        sender: sender.map(|a| SenderAddress { address: a.to_string() }),
        gas_input: None,
        kind: None,
    }
}

#[test]
fn filter_transactions_keeps_matching_senders_in_order() {
    let txs = vec![
        tx("d1", Some("0xa")),
        tx("d2", Some("0xb")),
        tx("d3", Some("0xa")),
        tx("d4", None),
    ];
    let filtered = filter_transactions_by_sender(txs, "0xa");
    let digests: Vec<&str> = filtered.iter().map(|t| t.digest.as_str()).collect();
    assert_eq!(digests, vec!["d1", "d3"]);
}
