use vstd::prelude::*;
use vstd::string::StringSliceAdditionalSpecFns;
use vstd::utf8::{encode_utf8, is_char_boundary};
use crate::types::SolverError;

verus! {

/// Settings of the solver: swap service credentials, chain account and bus
/// endpoint.
pub struct Config {
    /// API key for the RuneSwap service.
    pub runeswap_api_key: String,
    /// Account identifier on the NEAR chain.
    pub near_account_id: String,
    /// Private key of the NEAR account.
    pub near_private_key: String,
    /// Endpoint of the solver bus.
    pub solver_bus_url: String,
}

impl Config {
    /// A configuration holding the given values.
    pub fn new(
        runeswap_api_key: String,
        near_account_id: String,
        near_private_key: String,
        solver_bus_url: String,
    ) -> (r: Self)
        ensures
            r.runeswap_api_key == runeswap_api_key,
            r.near_account_id == near_account_id,
            r.near_private_key == near_private_key,
            r.solver_bus_url == solver_bus_url,
    {
        Config { runeswap_api_key, near_account_id, near_private_key, solver_bus_url }
    }

    /// A configuration read from the process environment. No such source is
    /// wired up, so this always reports `ConfigUnavailable`.
    pub fn from_env() -> (r: Result<Self, SolverError>)
        ensures
            r matches Err(e) && e == SolverError::ConfigUnavailable,
    {
        Err(SolverError::ConfigUnavailable)
    }
}

/// The bytes in which an API key may appear in logs: four asterisks for a
/// key of at most eight bytes, else its first four bytes, four asterisks and
/// its last four bytes.
pub open spec fn masked(key: Seq<u8>) -> Seq<u8> {
    if key.len() <= 8 {
        encode_utf8("****"@)
    } else {
        key.subrange(0, 4) + encode_utf8("****"@) + key.subrange(key.len() - 4, key.len() as int)
    }
}

/// Whether `mask_api_key` can cut `key`: it is short enough to be hidden
/// whole, or bytes 4 and `len - 4` both start a character.
pub open spec fn maskable(key: Seq<u8>) -> bool {
    key.len() <= 8 || (is_char_boundary(key, 4) && is_char_boundary(key, key.len() - 4))
}

/// Whether `mask_api_key` accepts `api_key`.
pub fn is_maskable(api_key: &str) -> (r: bool)
    ensures
        r == maskable(api_key.spec_bytes()),
{
    let n = api_key.as_bytes().len();
    n <= 8 || (api_key.is_char_boundary(4) && api_key.is_char_boundary(n - 4))
}

proof fn lemma_encode_utf8_concat(a: Seq<char>, b: Seq<char>)
    ensures
        encode_utf8(a + b) == encode_utf8(a) + encode_utf8(b),
    decreases a.len(),
{
    if a.len() == 0 {
        assert(a + b =~= b);
        assert(encode_utf8(a) + encode_utf8(b) =~= encode_utf8(b));
    } else {
        lemma_encode_utf8_concat(a.drop_first(), b);
        assert((a + b).drop_first() =~= a.drop_first() + b);
        assert((a + b)[0] == a[0]);
        assert(encode_utf8(a + b) =~= encode_utf8(a) + encode_utf8(b));
    }
}

/// Hides all but the first and last four bytes of an API key.
pub fn mask_api_key(api_key: &str) -> (r: String)
    requires
        maskable(api_key.spec_bytes()),
    ensures
        encode_utf8(r@) == masked(api_key.spec_bytes()),
{
    let n = api_key.as_bytes().len();
    if n <= 8 {
        return String::from_str("****");
    }
    let (head, _) = api_key.split_at(4);
    let (_, tail) = api_key.split_at(n - 4);
    let mut r = String::from_str(head);
    r.append("****");
    r.append(tail);
    proof {
        lemma_encode_utf8_concat(head@, "****"@);
        lemma_encode_utf8_concat(head@ + "****"@, tail@);
    }
    r
}

} // verus!
