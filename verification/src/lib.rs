//! A token-sale ledger with linear vesting.
//!
//! An issuer creates a sale pool with a fixed quote-token intake cap and a
//! linear-vesting payout schedule; participants bid once to reserve an
//! equal-sized allocation funded by a fixed quote-token deposit; after the
//! claim window opens, participants claim base tokens as they vest over
//! time, with an optional up-front slice at the window start.
//!
//! This crate is the accounting core alone: the cap and once-per-participant
//! invariants, the time-based claimable-amount function, and the checked
//! arithmetic beneath them. Persistent storage, access control, the transfer
//! of actual token balances, and the clock are collaborators of the host,
//! which hands the core plain values and commits or discards the records the
//! core returns.

/// Overflow-checked arithmetic primitives.
pub mod arith;
/// The error outcomes of the ledger's operations.
pub mod errors;
/// The pool and vesting-schedule records and their invariants.
pub mod model;
/// The three operations: `create`, `bid` and `claim`.
pub mod ops;
/// The claimable-amount computation and its laws.
pub mod vesting;
