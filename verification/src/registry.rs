//! The in-memory registry of live agents: one ready-to-prompt handle per
//! dataset record, keyed by the record identifier.
//!
//! The registry is populated once at startup from every existing record and
//! incrementally when a new dataset is accepted; nothing is ever evicted.
//! It is read and written by concurrent tasks, so it is backed by a
//! concurrency-safe map. A handle binds the textual instructions derived
//! from the record's metadata and the dataset's content; turning a handle
//! into a provider-backed completion call is the surrounding process's
//! concern.

use vstd::prelude::*;
use vstd::string::StringExecFns;

use crate::records::AgentDb;

verus! {

/// An in-memory, ready-to-prompt binding of one dataset's content and
/// metadata: everything a completion provider needs to act as this record's
/// agent.
#[derive(Clone)]
pub struct AgentHandle {
    pub agent_id: i64,
    pub name: String,
    pub instruction: String,
}

/// The instruction text an agent is built with: the record's name,
/// description and category label, and the dataset's content, bound into
/// the fixed prompt frame.
pub open spec fn agent_instruction_view(a: AgentDb, csv: Seq<char>) -> Seq<char> {
    "You are an AI agent ("@ + a.name@
        + ") who is responsible for answering questions about the csv dataset added to you (it is your only context). Do not use any other knowledge source to answer questions. Return only the answer. PLease Do not reveal any personal information about specific user like its email, name, phone number, etc. The Dataset description is "@
        + a.description@ + ". The Dataset Category is "@ + a.category.label_view()
        + ". The Dataset csv : "@ + csv
}

/// Builds the instruction text for one record and its dataset content.
pub fn build_agent_instruction(a: &AgentDb, dataset_content: &String) -> (r: String)
    ensures
        r@ == agent_instruction_view(*a, dataset_content@),
{
    let mut s = String::new();
    s.append("You are an AI agent (");
    s.append(a.name.as_str());
    s.append(
        ") who is responsible for answering questions about the csv dataset added to you (it is your only context). Do not use any other knowledge source to answer questions. Return only the answer. PLease Do not reveal any personal information about specific user like its email, name, phone number, etc. The Dataset description is ",
    );
    s.append(a.description.as_str());
    s.append(". The Dataset Category is ");
    let label = a.category.label();
    s.append(label.as_str());
    s.append(". The Dataset csv : ");
    s.append(dataset_content.as_str());
    proof {
        assert(s@ =~= agent_instruction_view(*a, dataset_content@));
    }
    s
}

/// The registry: record identifier to live agent handle, safe for
/// concurrent reads and writes without an external lock.
#[verifier::external_body]
pub struct AgentRegistry {
    inner: dashmap::DashMap<i64, AgentHandle>,
}

/// The entries an `AgentRegistry` holds.
pub uninterp spec fn registry_entries(r: AgentRegistry) -> Map<i64, AgentHandle>;

impl AgentRegistry {
    /// Relies on `dashmap::DashMap::new`: the new map is empty.
    #[verifier::external_body]
    pub fn new() -> (r: AgentRegistry)
        ensures
            registry_entries(r).dom() == Set::<i64>::empty(),
    {
        AgentRegistry { inner: dashmap::DashMap::new() }
    }

    /// Relies on `dashmap::DashMap::insert`: binds `id` to `handle`,
    /// replacing any earlier binding.
    #[verifier::external_body]
    pub fn put(&mut self, id: i64, handle: AgentHandle)
        ensures
            registry_entries(*final(self)) == registry_entries(*old(self)).insert(id, handle),
    {
        self.inner.insert(id, handle);
    }

    /// Relies on `dashmap::DashMap::get`: the handle bound to `id`, if any.
    #[verifier::external_body]
    pub fn get(&self, id: i64) -> (r: Option<AgentHandle>)
        ensures
            r == if registry_entries(*self).contains_key(id) {
                Some(registry_entries(*self)[id])
            } else {
                None::<AgentHandle>
            },
    {
        match self.inner.get(&id) {
            Option::Some(entry) => Option::Some(entry.value().clone()),
            Option::None => Option::None,
        }
    }
}

/// Builds one record's agent handle and registers it under the record's
/// identifier. Called right after a new dataset is durably recorded, before
/// the upload is acknowledged.
pub fn init_ai_agent_with_dataset(
    registry: &mut AgentRegistry,
    agent_db: &AgentDb,
    dataset_content: &String,
)
    ensures
        registry_entries(*final(registry)) == registry_entries(*old(registry)).insert(
            agent_db.id,
            registry_entries(*final(registry))[agent_db.id],
        ),
        registry_entries(*final(registry)).contains_key(agent_db.id),
        registry_entries(*final(registry))[agent_db.id].agent_id == agent_db.id,
        registry_entries(*final(registry))[agent_db.id].name@ == agent_db.name@,
        registry_entries(*final(registry))[agent_db.id].instruction@ == agent_instruction_view(
            *agent_db,
            dataset_content@,
        ),
{
    let instruction = build_agent_instruction(agent_db, dataset_content);
    let handle = AgentHandle {
        agent_id: agent_db.id,
        name: agent_db.name.clone(),
        instruction,
    };
    registry.put(agent_db.id, handle);
}

/// Builds the whole registry from the store's records at startup, one
/// handle per record and nothing else: the registry's key set is exactly
/// the records' identifiers. `contents[j]` is the dataset content of
/// `records[j]`.
pub fn load_db_agents(records: &Vec<AgentDb>, contents: &Vec<String>) -> (r: AgentRegistry)
    requires
        records@.len() == contents@.len(),
        forall|i: int, j: int|
            0 <= i < j < records@.len() ==> (#[trigger] records@[i]).id != (
            #[trigger] records@[j]).id,
    ensures
        forall|j: int|
            0 <= j < records@.len() ==> registry_entries(r).contains_key(
                (#[trigger] records@[j]).id,
            ) && registry_entries(r)[records@[j].id].agent_id == records@[j].id && registry_entries(
                r,
            )[records@[j].id].instruction@ == agent_instruction_view(records@[j], contents@[j]@),
        forall|id: i64|
            #[trigger] registry_entries(r).contains_key(id) ==> exists|j: int|
                0 <= j < records@.len() && (#[trigger] records@[j]).id == id,
{
    let n = records.len();
    let mut registry = AgentRegistry::new();
    let mut k: usize = 0;
    while k < n
        invariant
            0 <= k <= n,
            n == records@.len() == contents@.len(),
            forall|i: int, j: int|
                0 <= i < j < records@.len() ==> (#[trigger] records@[i]).id != (
                #[trigger] records@[j]).id,
            forall|j: int|
                0 <= j < k ==> registry_entries(registry).contains_key(
                    (#[trigger] records@[j]).id,
                ) && registry_entries(registry)[records@[j].id].agent_id == records@[j].id
                    && registry_entries(registry)[records@[j].id].instruction@
                    == agent_instruction_view(records@[j], contents@[j]@),
            forall|id: i64|
                #[trigger] registry_entries(registry).contains_key(id) ==> exists|j: int|
                    0 <= j < k && (#[trigger] records@[j]).id == id,
        decreases n - k,
    {
        init_ai_agent_with_dataset(&mut registry, &records[k], &contents[k]);
        k = k + 1;
    }
    registry
}

} // verus!
