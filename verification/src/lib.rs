//! Escrow-and-accounting engine for a peer-to-peer car-rental marketplace.
//!
//! The engine tracks leasable cars, active rental agreements, per-party
//! custodial balances and a configurable flat platform fee, and it enforces
//! that funds move only through authorized, invariant-preserving transitions.
//!
//! The hosting platform's collaborators are modeled at their interface
//! boundary: the persistent store is owned by the engine itself, the
//! caller-identity oracle becomes an explicit `caller` argument checked
//! against the required principal, the fungible-value transfer service is the
//! [`token::TokenLedger`] handle passed into the operations that move funds,
//! and the event sink is an append-only log kept by the engine. Principals
//! are plain `u64` identifiers.

pub mod balance;
pub mod contract;
pub mod errors;
pub mod events;
pub mod laws;
pub mod solvency;
pub mod state;
pub mod token;
pub mod types;
pub mod xlm;
