//! The cross-agent strategy registry: write-only during a run, read by
//! later phases; entries are never removed and ids never change.
use vstd::prelude::*;

verus! {

/// One registered strategy: which agent's solution it came from, what it
/// says, and a provenance note.
#[derive(Clone, Debug)]
pub struct StrategyEntry {
    pub origin_agent_id: String,
    pub description: String,
    pub provenance: String,
}

/// The registry. A strategy's id is its insertion position, so ids are
/// unique and stable for the lifetime of the run.
pub struct StrategyNetwork {
    entries: Vec<StrategyEntry>,
}

impl View for StrategyNetwork {
    type V = Seq<StrategyEntry>;

    closed spec fn view(&self) -> Seq<StrategyEntry> {
        self.entries@
    }
}

impl StrategyNetwork {
    /// An empty registry.
    pub fn new() -> (r: StrategyNetwork)
        ensures
            r@.len() == 0,
    {
        StrategyNetwork { entries: Vec::new() }
    }

    /// How many strategies are registered.
    pub fn count(&self) -> (r: usize)
        ensures
            r == self@.len(),
    {
        self.entries.len()
    }

    /// Register a strategy and return its id: the position it now holds.
    /// Existing entries and their ids are untouched.
    pub fn register_strategy(
        &mut self,
        origin_agent_id: String,
        description: String,
        provenance: String,
    ) -> (id: u64)
        requires
            old(self)@.len() < u64::MAX,
        ensures
            id == old(self)@.len(),
            final(self)@ == old(self)@.push(
                StrategyEntry { origin_agent_id, description, provenance },
            ),
    {
        let id = self.entries.len() as u64;
        self.entries.push(StrategyEntry { origin_agent_id, description, provenance });
        id
    }

    /// The strategy registered under `id`, if any.
    pub fn get_strategy(&self, id: u64) -> (r: Option<StrategyEntry>)
        ensures
            id < self@.len() ==> (r matches Some(e) && e == self@[id as int]),
            id >= self@.len() ==> r is None,
    {
        if id < self.entries.len() as u64 {
            let e = &self.entries[id as usize];
            Some(
                StrategyEntry {
                    origin_agent_id: e.origin_agent_id.clone(),
                    description: e.description.clone(),
                    provenance: e.provenance.clone(),
                },
            )
        } else {
            None
        }
    }
}

} // verus!
