//! Mint reconciliation: applying one ledger mint event to the record store
//! exactly once.
//!
//! A mint event arrives at least once (the poller's block ranges overlap on
//! purpose), so reconciliation is idempotent: the first delivery sets the
//! record's minted-token fields, and every later delivery of the same event
//! resolves to `AlreadyMinted` without touching the table.

use vstd::prelude::*;

use crate::numparse::{parse_i64, parse_i64_view};
use crate::records::{has_id, with_nft, AgentDb, RecordTable};

verus! {

/// One decoded `DatasetNFTMinted` ledger event.
///
/// `to` is the recipient address in its canonical checksummed form,
/// `dataset_id` the record identifier in decimal string form, and `tx_hash`
/// the originating transaction, when the log carried one.
pub struct DatasetNFTMint {
    pub to: String,
    pub token_id: i64,
    pub dataset_id: String,
    pub tx_hash: Option<String>,
}

/// Why a mint event was not applied.
#[derive(Clone, Copy, Debug, PartialEq, Eq, Structural)]
pub enum ReconcileError {
    /// The event's dataset identifier is not a decimal `i64`.
    InvalidDatasetId,
    /// No record carries the referenced identifier: a configuration mismatch
    /// between ledger and store, not a transient condition.
    NotFound,
    /// The record was minted before; the duplicate delivery is a no-op.
    AlreadyMinted,
    /// The mint recipient is not the record owner's ledger address.
    AddressMismatch,
}

/// The outcome reconciliation owes for `ev` against the table `rows`.
pub open spec fn reconcile_outcome(rows: Seq<AgentDb>, ev: DatasetNFTMint) -> Result<
    (),
    ReconcileError,
> {
    match parse_i64_view(ev.dataset_id@) {
        Option::None => Err(ReconcileError::InvalidDatasetId),
        Option::Some(id) => if !has_id(rows, id) {
            Err(ReconcileError::NotFound)
        } else if exists|j: int|
            0 <= j < rows.len() && (#[trigger] rows[j]).id == id && rows[j].nft_id is Some {
            Err(ReconcileError::AlreadyMinted)
        } else if exists|j: int|
            0 <= j < rows.len() && (#[trigger] rows[j]).id == id && rows[j].owner_address@
                != ev.to@ {
            Err(ReconcileError::AddressMismatch)
        } else {
            Ok(())
        },
    }
}

/// The table after reconciling `ev`: on success the referenced record gains
/// the minted-token fields, on any error the table is unchanged.
pub open spec fn reconcile_rows(rows: Seq<AgentDb>, ev: DatasetNFTMint) -> Seq<AgentDb> {
    if reconcile_outcome(rows, ev) is Ok {
        let id = parse_i64_view(ev.dataset_id@)->Some_0;
        Seq::new(
            rows.len(),
            |j: int|
                if rows[j].id == id {
                    with_nft(rows[j], ev.token_id, ev.tx_hash)
                } else {
                    rows[j]
                },
        )
    } else {
        rows
    }
}

impl RecordTable {
    /// Reconciles one mint event inside one store transaction: look the
    /// record up, reject an unknown, already-minted, or misdirected event,
    /// and otherwise bind the minted token to the record.
    #[verifier::loop_isolation(false)]
    pub fn handle_new_nft_mint(&mut self, ev: &DatasetNFTMint) -> (r: Result<(), ReconcileError>)
        requires
            old(self).wf(),
        ensures
            final(self).wf(),
            r == reconcile_outcome(old(self).rows@, *ev),
            final(self).rows@ == reconcile_rows(old(self).rows@, *ev),
    {
        let id = match parse_i64(ev.dataset_id.as_str()) {
            Option::None => {
                return Err(ReconcileError::InvalidDatasetId);
            },
            Option::Some(id) => id,
        };
        let n = self.rows.len();
        let mut k: usize = 0;
        while k < n
            invariant
                0 <= k <= n,
                self == old(self),
                forall|j: int| 0 <= j < k ==> (#[trigger] self.rows@[j]).id != id,
            decreases n - k,
        {
            if self.rows[k].id == id {
                if self.rows[k].nft_id.is_some() {
                    return Err(ReconcileError::AlreadyMinted);
                }
                if self.rows[k].owner_address != ev.to {
                    return Err(ReconcileError::AddressMismatch);
                }
                let row = &self.rows[k];
                let updated = AgentDb {
                    id: row.id,
                    name: row.name.clone(),
                    description: row.description.clone(),
                    price: row.price,
                    owner_id: row.owner_id,
                    owner_address: row.owner_address.clone(),
                    dataset_path: row.dataset_path.clone(),
                    category: row.category,
                    dataset_size: row.dataset_size,
                    nft_id: Some(ev.token_id),
                    nft_tx: crate::records::clone_opt_string(&ev.tx_hash),
                    status: row.status.clone(),
                    created_at: row.created_at,
                    updated_at: row.updated_at,
                };
                self.rows[k] = updated;
                proof {
                    let prior = old(self).rows@;
                    let later = reconcile_rows(prior, *ev);
                    assert(reconcile_outcome(prior, *ev) is Ok);
                    assert(self.rows@ =~= later);
                }
                return Ok(());
            }
            k = k + 1;
        }
        Err(ReconcileError::NotFound)
    }
}

/// For a valid mint event whose record exists, is unminted, and whose
/// recipient matches the record owner, reconciliation succeeds and binds
/// exactly the referenced record to the minted token, leaving every other
/// record unchanged.
pub proof fn lemma_reconcile_applies_mint(rows: Seq<AgentDb>, ev: DatasetNFTMint, id: i64)
    requires
        parse_i64_view(ev.dataset_id@) == Some(id),
        has_id(rows, id),
        forall|j: int|
            0 <= j < rows.len() && (#[trigger] rows[j]).id == id ==> rows[j].nft_id is None
                && rows[j].owner_address@ == ev.to@,
    ensures
        reconcile_outcome(rows, ev) is Ok,
        reconcile_rows(rows, ev).len() == rows.len(),
        forall|j: int|
            0 <= j < rows.len() && (#[trigger] rows[j]).id == id ==> reconcile_rows(rows, ev)[j]
                == with_nft(rows[j], ev.token_id, ev.tx_hash),
        forall|j: int|
            0 <= j < rows.len() && (#[trigger] rows[j]).id != id ==> reconcile_rows(rows, ev)[j]
                == rows[j],
{
}

/// For a mint event referencing an identifier no record carries,
/// reconciliation fails with `NotFound` and the table is untouched.
pub proof fn lemma_reconcile_unknown_id(rows: Seq<AgentDb>, ev: DatasetNFTMint, id: i64)
    requires
        parse_i64_view(ev.dataset_id@) == Some(id),
        !has_id(rows, id),
    ensures
        reconcile_outcome(rows, ev) == Err::<(), ReconcileError>(ReconcileError::NotFound),
        reconcile_rows(rows, ev) == rows,
{
}

/// Reconciliation is idempotent: once an event has been applied, delivering
/// the same event again resolves to `AlreadyMinted` and changes nothing.
/// This holds for any duplicate delivery, whatever its source — the poller's
/// overlapping block ranges or a plain redelivery.
pub proof fn lemma_reconcile_idempotent(rows: Seq<AgentDb>, ev: DatasetNFTMint)
    requires
        reconcile_outcome(rows, ev) is Ok,
    ensures
        reconcile_outcome(reconcile_rows(rows, ev), ev) == Err::<(), ReconcileError>(
            ReconcileError::AlreadyMinted,
        ),
        reconcile_rows(reconcile_rows(rows, ev), ev) == reconcile_rows(rows, ev),
{
    let id = parse_i64_view(ev.dataset_id@)->Some_0;
    let later = reconcile_rows(rows, ev);
    let j = choose|j: int| 0 <= j < rows.len() && (#[trigger] rows[j]).id == id;
    assert(later[j].id == id && later[j].nft_id is Some);
    assert(has_id(later, id));
}

} // verus!
