//! The relational records this core reads and reconciles: users, dataset
//! records (each dataset doubles as an agent), and an in-memory model of the
//! store's `agents` table against which reconciliation is specified.
//!
//! On-chain amounts and record prices are fixed-point integers in the same
//! base unit; no floating point is involved, so scaling is exact.

use vstd::prelude::*;

use crate::category::AgentCategory;

verus! {

/// A user row: a ledger address and its surrogate key.
pub struct UserDb {
    pub id: i64,
    pub address: String,
}

/// A dataset/agent record as the store holds it.
///
/// `price` and `dataset_size` are fixed-point base units (integers), and the
/// timestamps are seconds; the store owns the richer representations.
pub struct AgentDb {
    pub id: i64,
    pub name: String,
    pub description: String,
    pub price: u128,
    pub owner_id: i64,
    pub owner_address: String,
    pub dataset_path: String,
    pub category: AgentCategory,
    pub dataset_size: u64,
    pub nft_id: Option<i64>,
    pub nft_tx: Option<String>,
    pub status: String,
    pub created_at: i64,
    pub updated_at: i64,
}

/// The record with the same identity and data as `a`, with its minted-token
/// fields set.
pub open spec fn with_nft(a: AgentDb, nft_id: i64, nft_tx: Option<String>) -> AgentDb {
    AgentDb { nft_id: Some(nft_id), nft_tx: nft_tx, ..a }
}

/// Some row of `rows` carries the identifier `id`.
pub open spec fn has_id(rows: Seq<AgentDb>, id: i64) -> bool {
    exists|j: int| 0 <= j < rows.len() && (#[trigger] rows[j]).id == id
}

/// The rows of `rows` whose identifier occurs in `ids`, in table order.
pub open spec fn selected_rows(rows: Seq<AgentDb>, ids: Seq<i64>) -> Seq<AgentDb>
    decreases rows.len(),
{
    if rows.len() == 0 {
        Seq::empty()
    } else if ids.contains(rows.last().id) {
        selected_rows(rows.drop_last(), ids).push(rows.last())
    } else {
        selected_rows(rows.drop_last(), ids)
    }
}

/// The rows of `rows` owned by the address `addr`, in table order.
pub open spec fn rows_of_owner(rows: Seq<AgentDb>, addr: Seq<char>) -> Seq<AgentDb>
    decreases rows.len(),
{
    if rows.len() == 0 {
        Seq::empty()
    } else if rows.last().owner_address@ == addr {
        rows_of_owner(rows.drop_last(), addr).push(rows.last())
    } else {
        rows_of_owner(rows.drop_last(), addr)
    }
}

impl AgentDb {
    /// A field-for-field copy of this record.
    pub fn duplicate(&self) -> (r: AgentDb)
        ensures
            r == *self,
    {
        AgentDb {
            id: self.id,
            name: self.name.clone(),
            description: self.description.clone(),
            price: self.price,
            owner_id: self.owner_id,
            owner_address: self.owner_address.clone(),
            dataset_path: self.dataset_path.clone(),
            category: self.category,
            dataset_size: self.dataset_size,
            nft_id: self.nft_id,
            nft_tx: clone_opt_string(&self.nft_tx),
            status: self.status.clone(),
            created_at: self.created_at,
            updated_at: self.updated_at,
        }
    }
}

/// A copy of an optional string.
pub fn clone_opt_string(o: &Option<String>) -> (r: Option<String>)
    ensures
        r == *o,
{
    match o {
        Option::None => Option::None,
        Option::Some(s) => Option::Some(s.clone()),
    }
}

/// Whether `x` occurs in `v`.
pub fn contains_i64(v: &Vec<i64>, x: i64) -> (r: bool)
    ensures
        r == v@.contains(x),
{
    let mut k: usize = 0;
    while k < v.len()
        invariant
            0 <= k <= v@.len(),
            forall|j: int| 0 <= j < k ==> v@[j] != x,
        decreases v@.len() - k,
    {
        if v[k] == x {
            return true;
        }
        k = k + 1;
    }
    false
}

/// A store-level failure: the addressed row does not exist.
#[derive(Clone, Copy, Debug, PartialEq, Eq, Structural)]
pub enum StoreError {
    RowNotFound,
}

/// Some row of `users` carries the ledger address `addr`.
pub open spec fn has_address(users: Seq<UserDb>, addr: Seq<char>) -> bool {
    exists|j: int| 0 <= j < users.len() && (#[trigger] users[j]).address@ == addr
}

/// An in-memory model of the store's `users` table. A user is created
/// lazily the first time an address uploads a dataset and never mutated
/// afterward; addresses are unique.
pub struct UserTable {
    pub rows: Vec<UserDb>,
}

impl UserTable {
    /// Addresses are unique across the table.
    pub open spec fn wf(self) -> bool {
        forall|i: int, j: int|
            0 <= i < j < self.rows@.len() ==> (#[trigger] self.rows@[i]).address@ != (
            #[trigger] self.rows@[j]).address@
    }

    /// An empty table.
    pub fn new() -> (r: UserTable)
        ensures
            r.wf(),
            r.rows@.len() == 0,
    {
        UserTable { rows: Vec::new() }
    }

    /// Looks a user up by ledger address; `None` exactly when no row
    /// carries it.
    pub fn get_user_by_address(&self, address: &String) -> (r: Option<&UserDb>)
        ensures
            r is None <==> !has_address(self.rows@, address@),
            r matches Some(u) ==> u.address@ == address@ && self.rows@.contains(*u),
    {
        let n = self.rows.len();
        let mut k: usize = 0;
        while k < n
            invariant
                0 <= k <= n,
                n == self.rows@.len(),
                forall|j: int| 0 <= j < k ==> (#[trigger] self.rows@[j]).address@ != address@,
            decreases n - k,
        {
            if self.rows[k].address == *address {
                return Some(&self.rows[k]);
            }
            k = k + 1;
        }
        None
    }

    /// Creates the user for `address` unless one exists — the store's
    /// insert-or-do-nothing on the unique address. A fresh user gets the
    /// next row position as its identifier.
    #[verifier::loop_isolation(false)]
    pub fn insert_user(&mut self, address: &String)
        requires
            old(self).wf(),
            old(self).rows@.len() < 0x7fffffffffffffff,
        ensures
            final(self).wf(),
            has_address(old(self).rows@, address@) ==> final(self).rows@ == old(self).rows@,
            !has_address(old(self).rows@, address@) ==> {
                &&& final(self).rows@.len() == old(self).rows@.len() + 1
                &&& final(self).rows@.last().address@ == address@
                &&& final(self).rows@.last().id == old(self).rows@.len()
                &&& final(self).rows@.drop_last() == old(self).rows@
            },
    {
        let n = self.rows.len();
        let mut k: usize = 0;
        while k < n
            invariant
                0 <= k <= n,
                self == old(self),
                forall|j: int| 0 <= j < k ==> (#[trigger] self.rows@[j]).address@ != address@,
            decreases n - k,
        {
            if self.rows[k].address == *address {
                return ;
            }
            k = k + 1;
        }
        let user = UserDb { id: n as i64, address: address.clone() };
        self.rows.push(user);
        proof {
            assert(final(self).rows@.drop_last() =~= old(self).rows@);
        }
    }
}

/// An in-memory model of the store's `agents` table, joined with the owning
/// user's address. Row order models the table's physical order; identifiers
/// are unique.
pub struct RecordTable {
    pub rows: Vec<AgentDb>,
}

impl RecordTable {
    /// Identifiers are unique across the table.
    pub open spec fn wf(self) -> bool {
        forall|i: int, j: int|
            0 <= i < j < self.rows@.len() ==> (#[trigger] self.rows@[i]).id != (
            #[trigger] self.rows@[j]).id
    }

    /// An empty table.
    pub fn new() -> (r: RecordTable)
        ensures
            r.wf(),
            r.rows@.len() == 0,
    {
        RecordTable { rows: Vec::new() }
    }

    /// Looks a record up by identifier; `None` exactly when no row carries
    /// it.
    pub fn get_agent_by_id_optional(&self, id: i64) -> (r: Option<&AgentDb>)
        ensures
            r is None <==> !has_id(self.rows@, id),
            r matches Some(a) ==> a.id == id && self.rows@.contains(*a),
    {
        let n = self.rows.len();
        let mut k: usize = 0;
        while k < n
            invariant
                0 <= k <= n,
                n == self.rows@.len(),
                forall|j: int| 0 <= j < k ==> (#[trigger] self.rows@[j]).id != id,
            decreases n - k,
        {
            if self.rows[k].id == id {
                return Some(&self.rows[k]);
            }
            k = k + 1;
        }
        None
    }

    /// Adds a new record; the caller supplies a fresh identifier.
    pub fn insert_new_agent(&mut self, row: AgentDb)
        requires
            old(self).wf(),
            !has_id(old(self).rows@, row.id),
        ensures
            final(self).wf(),
            final(self).rows@ == old(self).rows@.push(row),
    {
        self.rows.push(row);
    }

    /// Sets the minted-token fields of the record `agent_id` — the store's
    /// nft-fields update. Errs, touching nothing, exactly when no row
    /// carries the identifier.
    #[verifier::loop_isolation(false)]
    pub fn update_agent_with_nft_details(
        &mut self,
        agent_id: i64,
        nft_id: i64,
        nft_tx: Option<String>,
    ) -> (r: Result<(), StoreError>)
        requires
            old(self).wf(),
        ensures
            final(self).wf(),
            r is Ok <==> has_id(old(self).rows@, agent_id),
            r is Err ==> final(self).rows@ == old(self).rows@,
            r is Ok ==> final(self).rows@ == Seq::new(
                old(self).rows@.len(),
                |j: int|
                    if old(self).rows@[j].id == agent_id {
                        with_nft(old(self).rows@[j], nft_id, nft_tx)
                    } else {
                        old(self).rows@[j]
                    },
            ),
    {
        let n = self.rows.len();
        let mut k: usize = 0;
        while k < n
            invariant
                0 <= k <= n,
                self == old(self),
                forall|j: int| 0 <= j < k ==> (#[trigger] self.rows@[j]).id != agent_id,
            decreases n - k,
        {
            if self.rows[k].id == agent_id {
                let row = &self.rows[k];
                let updated = AgentDb {
                    id: row.id,
                    name: row.name.clone(),
                    description: row.description.clone(),
                    price: row.price,
                    owner_id: row.owner_id,
                    owner_address: row.owner_address.clone(),
                    dataset_path: row.dataset_path.clone(),
                    category: row.category,
                    dataset_size: row.dataset_size,
                    nft_id: Some(nft_id),
                    nft_tx,
                    status: row.status.clone(),
                    created_at: row.created_at,
                    updated_at: row.updated_at,
                };
                self.rows[k] = updated;
                proof {
                    assert(self.rows@ =~= Seq::new(
                        old(self).rows@.len(),
                        |j: int|
                            if old(self).rows@[j].id == agent_id {
                                with_nft(old(self).rows@[j], nft_id, nft_tx)
                            } else {
                                old(self).rows@[j]
                            },
                    ));
                }
                return Ok(());
            }
            k = k + 1;
        }
        Err(StoreError::RowNotFound)
    }

    /// The records among `ids`, in table order: the store's select-by-id-list.
    pub fn get_agents_by_ids(&self, ids: &Vec<i64>) -> (r: Vec<AgentDb>)
        ensures
            r@ == selected_rows(self.rows@, ids@),
    {
        let n = self.rows.len();
        let mut out: Vec<AgentDb> = Vec::new();
        let mut k: usize = 0;
        while k < n
            invariant
                0 <= k <= n,
                n == self.rows@.len(),
                out@ == selected_rows(self.rows@.subrange(0, k as int), ids@),
            decreases n - k,
        {
            let ghost prefix = self.rows@.subrange(0, k as int);
            proof {
                assert(self.rows@.subrange(0, k + 1).drop_last() =~= prefix);
                assert(self.rows@.subrange(0, k + 1).last() == self.rows@[k as int]);
            }
            if contains_i64(ids, self.rows[k].id) {
                out.push(self.rows[k].duplicate());
            }
            k = k + 1;
        }
        proof {
            assert(self.rows@.subrange(0, n as int) =~= self.rows@);
        }
        out
    }

    /// The records owned by `addr`, in table order: the store's
    /// select-by-owner.
    pub fn get_agents_by_user_address(&self, addr: &String) -> (r: Vec<AgentDb>)
        ensures
            r@ == rows_of_owner(self.rows@, addr@),
    {
        let n = self.rows.len();
        let mut out: Vec<AgentDb> = Vec::new();
        let mut k: usize = 0;
        while k < n
            invariant
                0 <= k <= n,
                n == self.rows@.len(),
                out@ == rows_of_owner(self.rows@.subrange(0, k as int), addr@),
            decreases n - k,
        {
            let ghost prefix = self.rows@.subrange(0, k as int);
            proof {
                assert(self.rows@.subrange(0, k + 1).drop_last() =~= prefix);
                assert(self.rows@.subrange(0, k + 1).last() == self.rows@[k as int]);
            }
            if self.rows[k].owner_address == *addr {
                out.push(self.rows[k].duplicate());
            }
            k = k + 1;
        }
        proof {
            assert(self.rows@.subrange(0, n as int) =~= self.rows@);
        }
        out
    }
}

} // verus!
