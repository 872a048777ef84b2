use vstd::prelude::*;

verus! {

/// Failure kinds of the launchpad core. Every failing operation names its
/// cause exactly; distinct causes are never collapsed, since slippage, a
/// locked pool and a mint mismatch each call for different corrective action
/// by the caller.
#[derive(Clone, Copy, Debug, PartialEq, Eq, Structural)]
pub enum AmmError {
    /// A trade was requested with a zero input amount.
    NoZeroTokens,
    /// A swap was attempted on a locked or migrated pool.
    PoolIsLocked,
    /// The computed output fell short of the caller-supplied limit.
    SlippageExceeded,
    /// A caller-supplied account's asset identity does not match the pool's
    /// configured reserve.
    InvalidTokenMints,
    /// Overflow, a division fault, or a reserve-exceeding computed output.
    /// Always fatal: it signals a configuration or invariant bug.
    ArithmeticFault,
    /// A re-entrant migration attempt on a pool that has already migrated.
    AlreadyMigrated,
    /// Migration was requested before the cumulative sold supply crossed the
    /// migration threshold.
    ThresholdNotReached,
    /// The two asset identifiers for the external AMM were supplied against
    /// the destination protocol's canonical ordering.
    OrderingViolation,
    /// The external AMM protocol rejected the pool creation.
    CreationFailure,
}

} // verus!
