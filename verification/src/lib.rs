//! Accounting engine for a creator-support ledger.
//!
//! Supporters contribute stablecoin funds to a creator: a fixed share is paid
//! out immediately and the remainder is staked on the creator's behalf.
//! Staked principal accrues time-based rewards at a configured annual rate;
//! accrued rewards are split between supporter and creator and disbursed as
//! newly minted reward tokens. A configurable ceiling bounds how much of a
//! position's principal may be withdrawn at a time.
//!
//! This crate is the deterministic state-transition core: splitting a
//! contribution, tracking aggregate and per-supporter stake state, computing
//! accrued rewards, and validating withdrawals. Every operation either
//! succeeds and applies all of its mutations, or fails with a specific
//! [`errors::ErrorCode`] and leaves all state untouched. The external
//! collaborators (token transfer and mint, persistent storage, the clock)
//! are driven by the hosting environment, which performs the transfers and
//! mints that each successful operation requests.

pub mod engine;
pub mod errors;
pub mod laws;
pub mod math;
pub mod state;
