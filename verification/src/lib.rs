//! Bonding-curve launchpad core: reserve bookkeeping, swap pricing with fee
//! split, depletion locking, and the threshold-triggered migration state
//! machine that graduates a pool to an external constant-product AMM.

pub mod bound;
pub mod curve;
pub mod errors;
pub mod fees;
pub mod math;
pub mod migration;
pub mod models;

use vstd::prelude::*;

verus! {

/// Scale of the fixed-point fee percentages: a rate of `FEE_SCALE` is 100%,
/// so `10_000_000` is 1%.
pub const FEE_SCALE: u64 = 1_000_000_000;

} // verus!
