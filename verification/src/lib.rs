//! A trust-minimized service marketplace: providers advertise priced
//! services, requesters pay into escrow for a unit of work, and funds are
//! released, refunded, or reclaimed only by the transitions of a verified
//! task state machine, some of them gated by a zero-knowledge proof check.
//!
//! The durable keyed record store, signer authentication, storage-address
//! derivation, and the wall clock are external collaborators: operations
//! here take the records they act on, the authenticated caller identity,
//! and the current time as plain values, and state exactly how each record
//! and balance changes.

pub mod errors;
pub mod laws;
pub mod ops;
pub mod state;
pub mod zk;
