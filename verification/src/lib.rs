//! A value escrow. A sender locks an amount as a *drop* under an
//! identifier; a receiver claims it by one of two proofs, a signature of
//! the drop's gatekeeper or a P-256 signature under the key bound to the
//! drop; after the deadline the sender may take the amount back.
//!
//! The escrow decides and keeps the records. It makes no call to the
//! outside: the recovery of a signer, the verification of a P-256
//! signature and the transfer of value are asked of the caller, step by
//! step, and their outcomes reported back.
//!
//! - `types`: addresses, 256-bit words, errors
//! - `record`: the record of a drop
//! - `registry`: the store of records
//! - `agent`, `biometric`: the bytes that go to and come from the services
//! - `rules`: how a claim and a reclaim advance, as mathematics
//! - `engine`: claims and reclaims as values that are advanced
//! - `vault`: the escrow and its four operations
//! - `laws`: what holds of all of it

pub mod agent;
pub mod biometric;
pub mod engine;
pub mod laws;
pub mod record;
pub mod registry;
pub mod rules;
pub mod types;
pub mod vault;
