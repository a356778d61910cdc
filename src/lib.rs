//! Per-owner custodial vaults that earn reward over time.
//!
//! Reward accrues at one ten-thousandth of the vault's balance per elapsed
//! time unit and is credited to the owner's reward box. Every operation that
//! changes a balance first settles the reward earned up to the current clock
//! reading, and either applies all of its changes or none of them.
pub mod laws;
pub mod ops;
pub mod reward;
pub mod state;
