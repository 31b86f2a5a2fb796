//! Event-reconciliation and payment-verification core for a dataset
//! marketplace: a ledger poller discovers mint events, a reconciler applies
//! each of them to the record store exactly once, and a payment verifier
//! re-derives from raw transaction receipts whether a claimed payment covers
//! the agents a caller wants to use.

pub mod category;
pub mod config;
pub mod numparse;
pub mod records;
pub mod types;
pub mod reconcile;
pub mod abi;
pub mod txset;
pub mod state;
pub mod csvdata;
pub mod payment;
pub mod poller;
pub mod registry;
