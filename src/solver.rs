use vstd::prelude::*;
use crate::runeswap::RuneSwapClient;
use crate::types::{quote_answers, SolverError, SwapIntent, SwapQuote};

verus! {

/// A strategy that prices intents and executes the resulting quotes.
pub trait Solver {
    /// A quote for `intent`; any quote returned answers `intent`.
    fn process_intent(&self, intent: &SwapIntent) -> (r: Result<SwapQuote, SolverError>)
        ensures
            r matches Ok(q) ==> quote_answers(q, *intent),
    ;

    /// Executes `quote` and returns the transaction identifier.
    fn execute_swap(&self, quote: &SwapQuote) -> (r: Result<String, SolverError>);
}

/// Solver for the NEAR Intents protocol, pricing through RuneSwap.
pub struct NearIntentsSolver {
    account_id: String,
    private_key: String,
    solver_bus_url: String,
    runeswap_client: RuneSwapClient,
}

impl NearIntentsSolver {
    pub closed spec fn account_id_spec(&self) -> Seq<char> {
        self.account_id@
    }

    pub closed spec fn private_key_spec(&self) -> Seq<char> {
        self.private_key@
    }

    pub closed spec fn solver_bus_url_spec(&self) -> Seq<char> {
        self.solver_bus_url@
    }

    pub closed spec fn client_api_key_spec(&self) -> Seq<char> {
        self.runeswap_client.api_key_spec()
    }

    pub closed spec fn client_base_url_spec(&self) -> Seq<char> {
        self.runeswap_client.base_url_spec()
    }

    /// A solver acting for `account_id` on the bus at `solver_bus_url`.
    pub fn new(
        account_id: String,
        private_key: String,
        solver_bus_url: String,
        runeswap_client: RuneSwapClient,
    ) -> (r: Self)
        ensures
            r.account_id_spec() == account_id@,
            r.private_key_spec() == private_key@,
            r.solver_bus_url_spec() == solver_bus_url@,
            r.client_api_key_spec() == runeswap_client.api_key_spec(),
            r.client_base_url_spec() == runeswap_client.base_url_spec(),
    {
        NearIntentsSolver { account_id, private_key, solver_bus_url, runeswap_client }
    }

    pub fn account_id(&self) -> (r: &str)
        ensures
            r@ == self.account_id_spec(),
    {
        self.account_id.as_str()
    }

    /// The bus endpoint the solver connects to.
    pub fn solver_bus_url(&self) -> (r: &str)
        ensures
            r@ == self.solver_bus_url_spec(),
    {
        self.solver_bus_url.as_str()
    }
}

impl Solver for NearIntentsSolver {
    /// Asks the RuneSwap client for a quote.
    fn process_intent(&self, intent: &SwapIntent) -> (r: Result<SwapQuote, SolverError>)
        ensures
            r matches Err(e) && e == SolverError::ApiUnavailable,
    {
        self.runeswap_client.get_quote(intent)
    }

    /// Executes through the RuneSwap client.
    fn execute_swap(&self, quote: &SwapQuote) -> (r: Result<String, SolverError>)
        ensures
            r matches Err(e) && e == SolverError::ApiUnavailable,
    {
        self.runeswap_client.execute_swap(quote)
    }
}

} // verus!
