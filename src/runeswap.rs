use vstd::prelude::*;
use crate::types::{quote_answers, SolverError, SwapIntent, SwapQuote};

verus! {

/// Base URL of the RuneSwap API.
pub open spec fn runeswap_base_url() -> Seq<char> {
    "https://api.runeswap.io/v1"@
}

/// Client of the RuneSwap swap API.
pub struct RuneSwapClient {
    api_key: String,
    base_url: String,
}

impl RuneSwapClient {
    /// The API key the client authenticates with.
    pub closed spec fn api_key_spec(&self) -> Seq<char> {
        self.api_key@
    }

    /// The base URL the client sends requests to.
    pub closed spec fn base_url_spec(&self) -> Seq<char> {
        self.base_url@
    }

    /// A client for the public API, authenticated by `api_key`.
    pub fn new(api_key: &str) -> (r: Self)
        ensures
            r.api_key_spec() == api_key@,
            r.base_url_spec() == runeswap_base_url(),
    {
        RuneSwapClient {
            api_key: String::from_str(api_key),
            base_url: String::from_str("https://api.runeswap.io/v1"),
        }
    }

    pub fn api_key(&self) -> (r: &str)
        ensures
            r@ == self.api_key_spec(),
    {
        self.api_key.as_str()
    }

    pub fn base_url(&self) -> (r: &str)
        ensures
            r@ == self.base_url_spec(),
    {
        self.base_url.as_str()
    }

    /// A quote for `intent`. No API transport is wired up, so this always
    /// reports `ApiUnavailable`; a quote, once produced, answers `intent`.
    pub fn get_quote(&self, intent: &SwapIntent) -> (r: Result<SwapQuote, SolverError>)
        ensures
            r matches Err(e) && e == SolverError::ApiUnavailable,
            r matches Ok(q) ==> quote_answers(q, *intent),
    {
        Err(SolverError::ApiUnavailable)
    }

    /// Executes `quote` and returns the transaction identifier. No API
    /// transport is wired up, so this always reports `ApiUnavailable`.
    pub fn execute_swap(&self, quote: &SwapQuote) -> (r: Result<String, SolverError>)
        ensures
            r matches Err(e) && e == SolverError::ApiUnavailable,
    {
        Err(SolverError::ApiUnavailable)
    }
}

impl Clone for RuneSwapClient {
    fn clone(&self) -> (r: Self)
        ensures
            r.api_key_spec() == self.api_key_spec(),
            r.base_url_spec() == self.base_url_spec(),
    {
        RuneSwapClient { api_key: self.api_key.clone(), base_url: self.base_url.clone() }
    }
}

} // verus!
