//! A tiered staking and reward-accrual engine.
//!
//! The engine combines time-weighted interest accrual, multi-tier rate
//! multipliers keyed on stake size and lock duration, lock-period
//! enforcement, and exact integer-only arithmetic that never silently
//! loses precision or overflows.
//!
//! Everything stateful around the engine -- the ledger that moves tokens,
//! the keyed storage that persists records, signature verification, the
//! clock, and the observability sink that receives event records -- is an
//! external collaborator. Operations therefore take the current time and
//! the caller identity as plain values, mutate the records they are given,
//! and return the amounts that the external ledger must move together with
//! the event record to emit.

pub mod audit;
pub mod errors;
pub mod events;
pub mod lock;
pub mod ops;
pub mod rate;
pub mod records;
pub mod reward;
pub mod tier;

pub use errors::ErrorCode;
