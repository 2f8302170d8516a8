//! Verified core of the Trustline validation engine for Soroban.

pub mod engine;
pub mod events;
pub mod hashing;
pub mod registry;
pub mod sanctions;
pub mod screening;
pub mod host;
pub mod ttl;
pub mod types;
