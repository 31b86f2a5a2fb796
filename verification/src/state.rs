//! The application context: the shared state every component receives at
//! startup — the registry of live agents and the consumed-transaction set.
//! Both are mutated from concurrent tasks; neither is an ambient global.

use vstd::prelude::*;

use crate::registry::{registry_entries, AgentRegistry};
use crate::txset::{consumed_hashes, ConsumedTxSet};

verus! {

/// The process-wide shared state: the live agents and the transaction
/// hashes already accepted as payment. The store and ledger connections the
/// surrounding process adds are not part of the verified state.
pub struct AppState {
    pub tee_agents: AgentRegistry,
    pub handled_txs: ConsumedTxSet,
}

impl AppState {
    /// A fresh context: no agents registered, no transaction consumed.
    pub fn new() -> (r: AppState)
        ensures
            registry_entries(r.tee_agents).dom() == Set::<i64>::empty(),
            consumed_hashes(r.handled_txs) == Set::<Seq<char>>::empty(),
    {
        AppState { tee_agents: AgentRegistry::new(), handled_txs: ConsumedTxSet::new() }
    }

    /// A context whose agents were already loaded from the store.
    pub fn with_agents(tee_agents: AgentRegistry) -> (r: AppState)
        ensures
            r.tee_agents == tee_agents,
            consumed_hashes(r.handled_txs) == Set::<Seq<char>>::empty(),
    {
        AppState { tee_agents, handled_txs: ConsumedTxSet::new() }
    }
}

} // verus!
