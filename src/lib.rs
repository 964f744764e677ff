//! Position accounting and solvency enforcement for an overcollateralized
//! synthetic stablecoin: a registry of approved collateral, a fixed-point
//! health factor, and five atomic operations on a user's position.
use vstd::prelude::*;

pub mod types;
pub mod registry;
pub mod health;
pub mod ops;
pub mod laws;

verus! {

/// Rescales a raw oracle price into the common fixed-point domain.
pub const ADDITIONAL_FEED_PRECISION: u64 = 1_000_000_000;

/// The fixed-point base (18 decimals).
pub const PRECISION: u64 = 1_000_000_000_000_000_000;

/// Share of the collateral value that counts towards solvency, in percent.
pub const LIQUIDATION_THRESHOLD: u64 = 50;

/// Denominator of the threshold and of the bonus.
pub const LIQUIDATION_PRECISION: u64 = 100;

/// A health factor of 1.0 in fixed-point units.
pub const MIN_HEALTH_FACTOR: u128 = 1_000_000_000_000_000_000;

/// Extra collateral awarded to a liquidator, in percent of the seized amount.
pub const LIQUIDATION_BONUS: u64 = 10;

} // verus!
