//! Accounting engine of a time-weighted, compounding staking vault.
//!
//! The library decides how much value moves and when; moving it, storing the
//! records and reading the clock are left to the caller.
pub mod reward;
pub mod state;
pub mod vault;
pub mod laws;
