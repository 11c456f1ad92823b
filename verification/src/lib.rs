//! A verified community-ledger core: a neighborhood hub with admin-gated
//! initialization, member-gated posts and polls, one-vote-per-voter polling,
//! and a registry of non-transferable ("soulbound") reputation badges.
//!
//! Authorization proofs, durable storage, and instance deployment are
//! capabilities of the surrounding host: callers authenticate an identity
//! and hand the outcome in as a plain boolean, and every operation states
//! exactly how the state changes for each outcome.

pub mod deployer;
pub mod hub;
pub mod soulbound;
pub mod types;
