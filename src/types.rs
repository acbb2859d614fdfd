use vstd::prelude::*;

verus! {

/// A token with its symbol, chain address and decimal precision.
#[derive(Debug, Clone)]
pub struct Token {
    pub symbol: String,
    pub address: String,
    pub decimals: u8,
}

/// A request to swap `amount` of `from_token` into at least `min_amount_out`
/// of `to_token` before `deadline` (epoch seconds).
#[derive(Debug, Clone)]
pub struct SwapIntent {
    pub id: String,
    pub from_token: Token,
    pub to_token: Token,
    pub amount: String,
    pub min_amount_out: String,
    pub deadline: u64,
}

/// A priced offer for the intent whose identifier is `intent_id`.
#[derive(Debug, Clone)]
pub struct SwapQuote {
    pub intent_id: String,
    pub amount_out: String,
    pub price: String,
    pub gas_estimate: u64,
}

/// Outcome of an attempt to execute a quote.
#[derive(Debug, Clone, Copy, PartialEq, Eq, Structural)]
pub enum SwapStatus {
    Pending,
    Executed,
    Failed,
}

/// Errors of the configuration loader and of the swap service client.
#[derive(Debug, Clone, Copy, PartialEq, Eq, Structural)]
pub enum SolverError {
    /// No configuration source is available.
    ConfigUnavailable,
    /// The swap service API is not available.
    ApiUnavailable,
}

pub open spec fn solver_error_message(e: SolverError) -> Seq<char> {
    match e {
        SolverError::ConfigUnavailable => "Configuration from environment not yet implemented"@,
        SolverError::ApiUnavailable => "RuneSwap API client not yet implemented"@,
    }
}

impl SolverError {
    /// Human-readable description of the error.
    pub fn message(&self) -> (r: String)
        ensures
            r@ == solver_error_message(*self),
    {
        match self {
            SolverError::ConfigUnavailable => String::from_str(
                "Configuration from environment not yet implemented",
            ),
            SolverError::ApiUnavailable => String::from_str("RuneSwap API client not yet implemented"),
        }
    }
}

/// A quote answers an intent when it carries that intent's identifier.
pub open spec fn quote_answers(quote: SwapQuote, intent: SwapIntent) -> bool {
    quote.intent_id@ == intent.id@
}

} // verus!
