//! Reward-accrual and withdrawal-escrow engine of a locked staking pool.
//!
//! All quantities are integers; reward rates and the reward-per-token index
//! are scaled by [`math::PRECISION`]. Every operation is all-or-nothing: on
//! an error the records handed in are left exactly as they were.
pub mod math;
pub mod types;
pub mod accrual;
pub mod events;
pub mod engine;
pub mod admin;
pub mod views;
pub mod ledger;
