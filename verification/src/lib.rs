//! A ledger-resident record store: file-metadata records and per-file
//! access-control entries kept in a deterministic, fixed-slot persistence
//! surface, with monotonic identifier assignment and explicit authorization
//! checks before any mutation.
//!
//! The store itself is pure state-transition logic; the host environment
//! (persistent storage, ledger clock, event sink) supplies values at the
//! edge and persists the slots between calls.

pub mod records;
pub mod store;
pub mod laws;
