//! The consumed-transaction set: transaction hashes already accepted as
//! valid payment. Append-only for the process lifetime; it is what stops a
//! transaction from being replayed to unlock agents twice.
//!
//! The set is shared by concurrent request tasks, so it is backed by a
//! concurrency-safe container, and membership and insertion are combined in
//! one atomic insert-if-absent step when a verification succeeds.

use vstd::prelude::*;

verus! {

/// The set of transaction hashes already consumed.
#[verifier::external_body]
pub struct ConsumedTxSet {
    inner: dashmap::DashSet<String>,
}

/// The hashes a `ConsumedTxSet` holds.
pub uninterp spec fn consumed_hashes(s: ConsumedTxSet) -> Set<Seq<char>>;

impl ConsumedTxSet {
    /// Relies on `dashmap::DashSet::new`: the new set is empty.
    #[verifier::external_body]
    pub fn new() -> (r: ConsumedTxSet)
        ensures
            consumed_hashes(r) == Set::<Seq<char>>::empty(),
    {
        ConsumedTxSet { inner: dashmap::DashSet::new() }
    }

    /// Relies on `dashmap::DashSet::contains`: membership of the given key.
    #[verifier::external_body]
    pub fn contains(&self, tx_hash: &String) -> (r: bool)
        ensures
            r == consumed_hashes(*self).contains(tx_hash@),
    {
        self.inner.contains(tx_hash.as_str())
    }

    /// Relies on `dashmap::DashSet::insert`: adds the key and returns true
    /// exactly when it was not already present — a single atomic
    /// insert-if-absent, not a separate check followed by an insert.
    #[verifier::external_body]
    pub fn insert_if_absent(&mut self, tx_hash: String) -> (r: bool)
        ensures
            consumed_hashes(*final(self)) == consumed_hashes(*old(self)).insert(tx_hash@),
            r == !consumed_hashes(*old(self)).contains(tx_hash@),
    {
        self.inner.insert(tx_hash)
    }
}

} // verus!
