use vstd::prelude::*;

pub mod bus;
pub mod bus_laws;
pub mod config;
pub mod runeswap;
pub mod solver;
pub mod types;

use crate::config::Config;
use crate::runeswap::RuneSwapClient;
use crate::solver::NearIntentsSolver;
use crate::types::SolverError;

pub use crate::config::mask_api_key;
pub use crate::solver::Solver;

verus! {

/// Entry point of the RuneSwap integration with NEAR Intents.
pub struct RuneSwapSolver {
    /// Configuration of the solver.
    pub config: Config,
    /// Client of the RuneSwap API.
    pub runeswap_client: RuneSwapClient,
}

impl RuneSwapSolver {
    /// A solver for `config`, with a client authenticated by its API key.
    pub fn new(config: Config) -> (r: Self)
        ensures
            r.config == config,
            r.runeswap_client.api_key_spec() == config.runeswap_api_key@,
            r.runeswap_client.base_url_spec() == crate::runeswap::runeswap_base_url(),
    {
        let runeswap_client = RuneSwapClient::new(config.runeswap_api_key.as_str());
        RuneSwapSolver { config, runeswap_client }
    }

    /// A solver configured from the process environment; fails as
    /// `Config::from_env` does.
    pub fn init_default() -> (r: Result<Self, SolverError>)
        ensures
            r matches Err(e) && e == SolverError::ConfigUnavailable,
    {
        match Config::from_env() {
            Ok(config) => Ok(Self::new(config)),
            Err(e) => Err(e),
        }
    }

    /// The bus solver that `start` runs: this solver's account, key, bus
    /// endpoint and a copy of its client.
    pub fn bus_solver(&self) -> (r: NearIntentsSolver)
        ensures
            r.account_id_spec() == self.config.near_account_id@,
            r.private_key_spec() == self.config.near_private_key@,
            r.solver_bus_url_spec() == self.config.solver_bus_url@,
            r.client_api_key_spec() == self.runeswap_client.api_key_spec(),
            r.client_base_url_spec() == self.runeswap_client.base_url_spec(),
    {
        NearIntentsSolver::new(
            self.config.near_account_id.clone(),
            self.config.near_private_key.clone(),
            self.config.solver_bus_url.clone(),
            self.runeswap_client.clone(),
        )
    }
}

} // verus!
