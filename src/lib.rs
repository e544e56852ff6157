//! A time-based reward-accrual staking ledger: an owner hands custody of an
//! asset account to an address derived by the program, accrues a fixed
//! reward per second while it stays there, claims on demand and takes the
//! asset back on unstake.

pub mod address;
pub mod ledger;
pub mod state;
pub mod program;
pub mod laws;
