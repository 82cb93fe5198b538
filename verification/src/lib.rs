//! A custodial staking ledger.
//!
//! One pool per fungible asset custodies deposits in a vault and tracks the
//! aggregate staked balance; one position per (pool, depositor) pair tracks
//! that depositor's balance and the time of their most recent deposit.
//! The modules here hold the accounting rules: how the two ledgers are
//! mutated, under what authorization, and with what arithmetic safety.
//! Moving the asset itself, deriving account addresses, and reading the
//! clock are the hosting platform's work and stay outside this crate.

pub mod account;
pub mod errors;
pub mod laws;
pub mod ops;
pub mod pool;
pub mod position;
