//! A token-vesting ledger: schedules that hold an escrow under a keyless
//! program-derived authority, and per-beneficiary grants that unlock linearly
//! after a cliff and are paid out by repeated claims.

pub mod authority;
pub mod errors;
pub mod instructions;
pub mod state;
pub mod vesting;
