use runeswap_solver::config::{is_maskable, mask_api_key, Config};
use runeswap_solver::runeswap::RuneSwapClient;
use runeswap_solver::solver::{NearIntentsSolver, Solver};
use runeswap_solver::types::{SolverError, SwapIntent, SwapQuote, SwapStatus, Token};
use runeswap_solver::RuneSwapSolver;

fn token(symbol: &str) -> Token {
    Token { symbol: symbol.to_string(), address: format!("{}.near", symbol), decimals: 18 }
}

fn intent() -> SwapIntent {
    SwapIntent {
        id: "intent-1".to_string(),
        from_token: token("NEAR"),
        to_token: token("RUNE"),
        amount: "100".to_string(),
        min_amount_out: "90".to_string(),
        deadline: 1_700_000_000,
    }
}

fn config() -> Config {
    Config::new(
        "abcdefghijkl".to_string(),
        "solver.near".to_string(),
        "ed25519:key".to_string(),
        "wss://bus.example/ws".to_string(),
    )
}

#[test]
fn mask_short_key() {
    assert_eq!(mask_api_key(""), "****");
    assert_eq!(mask_api_key("12345678"), "****");
}

#[test]
fn mask_long_key() {
    assert_eq!(mask_api_key("123456789"), "1234****6789");
    assert_eq!(mask_api_key("abcdefghijkl"), "abcd****ijkl");
}

#[test]
fn mask_cuts_bytes_not_characters() {
    let five = "\u{e9}\u{e9}\u{e9}\u{e9}\u{e9}";
    assert!(is_maskable(five));
    assert_eq!(mask_api_key(five), "\u{e9}\u{e9}****\u{e9}\u{e9}");
    let mixed = "\u{e9}\u{e9}aaaaa\u{e9}\u{e9}";
    assert!(is_maskable(mixed));
    assert_eq!(mask_api_key(mixed), "\u{e9}\u{e9}****\u{e9}\u{e9}");
    assert!(is_maskable("\u{e9}\u{e9}\u{e9}\u{e9}"));
    assert_eq!(mask_api_key("\u{e9}\u{e9}\u{e9}\u{e9}"), "****");
}

#[test]
fn mask_refuses_cut_inside_character() {
    assert!(!is_maskable("a\u{e9}\u{e9}\u{e9}\u{e9}"));
    assert!(is_maskable("abcdefghi"));
}

#[test]
fn config_new_keeps_values() {
    let c = config();
    assert_eq!(c.runeswap_api_key, "abcdefghijkl");
    assert_eq!(c.near_account_id, "solver.near");
    assert_eq!(c.near_private_key, "ed25519:key");
    assert_eq!(c.solver_bus_url, "wss://bus.example/ws");
}

#[test]
fn config_from_env_unavailable() {
    assert_eq!(Config::from_env().err(), Some(SolverError::ConfigUnavailable));
    assert_eq!(
        SolverError::ConfigUnavailable.message(),
        "Configuration from environment not yet implemented"
    );
}

#[test]
fn init_default_fails_like_from_env() {
    assert_eq!(RuneSwapSolver::init_default().err(), Some(SolverError::ConfigUnavailable));
}

#[test]
fn client_new_sets_key_and_base_url() {
    let c = RuneSwapClient::new("key-1");
    assert_eq!(c.api_key(), "key-1");
    assert_eq!(c.base_url(), "https://api.runeswap.io/v1");
    let d = c.clone();
    assert_eq!(d.api_key(), "key-1");
    assert_eq!(d.base_url(), "https://api.runeswap.io/v1");
}

#[test]
fn client_calls_report_api_unavailable() {
    let c = RuneSwapClient::new("key-1");
    assert_eq!(c.get_quote(&intent()).err(), Some(SolverError::ApiUnavailable));
    let q = SwapQuote {
        intent_id: "intent-1".to_string(),
        amount_out: "95".to_string(),
        price: "0.95".to_string(),
        gas_estimate: 21000,
    };
    assert_eq!(c.execute_swap(&q).err(), Some(SolverError::ApiUnavailable));
    assert_eq!(SolverError::ApiUnavailable.message(), "RuneSwap API client not yet implemented");
}

#[test]
fn solver_new_keeps_values() {
    let s = RuneSwapSolver::new(config());
    assert_eq!(s.runeswap_client.api_key(), "abcdefghijkl");
    let bus = s.bus_solver();
    assert_eq!(bus.account_id(), "solver.near");
    assert_eq!(bus.solver_bus_url(), "wss://bus.example/ws");
    let direct = NearIntentsSolver::new(
        "a.near".to_string(),
        "k".to_string(),
        "wss://x".to_string(),
        RuneSwapClient::new("z"),
    );
    assert_eq!(direct.account_id(), "a.near");
    assert_eq!(direct.solver_bus_url(), "wss://x");
}

#[test]
fn quotes_answer_their_intent() {
    let s = RuneSwapSolver::new(config()).bus_solver();
    let i = intent();
    match s.process_intent(&i) {
        Ok(q) => assert_eq!(q.intent_id, i.id),
        Err(e) => assert_eq!(e, SolverError::ApiUnavailable),
    }
    let q = SwapQuote {
        intent_id: i.id.clone(),
        amount_out: "1".to_string(),
        price: "1".to_string(),
        gas_estimate: 0,
    };
    assert_eq!(s.execute_swap(&q).err(), Some(SolverError::ApiUnavailable));
}

#[test]
fn swap_status_variants_differ() {
    assert_ne!(SwapStatus::Pending, SwapStatus::Executed);
    assert_ne!(SwapStatus::Executed, SwapStatus::Failed);
}
