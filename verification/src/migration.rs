use vstd::prelude::*;
use vstd::arithmetic::mul::lemma_mul_inequality;
use crate::bound::BoundPool;
use crate::errors::AmmError;
use crate::math::{lemma_mul_div_le, mul_div};
use crate::models::{AssetId, Reserve};

verus! {

/// Graduation split: 95% of each remaining reserve moves to the destination
/// AMM, 5% is retained for residual curve-mode trading.
pub const MIGRATION_MOVE_NUM: u64 = 95;

pub const MIGRATION_MOVE_DENOM: u64 = 100;

/// Liquidity handoff computed when a pool graduates: how much of each
/// reserve moves to the destination AMM, how much stays behind, and the two
/// asset mints in the destination protocol's canonical order (lower
/// identifier first).
#[derive(Clone, Copy, Debug, PartialEq, Eq, Structural)]
pub struct MigrationPlan {
    pub meme_to_amm: u64,
    pub quote_to_amm: u64,
    pub meme_residual: u64,
    pub quote_residual: u64,
    pub token_0_mint: AssetId,
    pub token_1_mint: AssetId,
}

/// Share of one reserve that moves to the destination AMM.
pub open spec fn spec_amm_share(tokens: u64) -> int {
    mul_div(tokens as int, MIGRATION_MOVE_NUM as int, MIGRATION_MOVE_DENOM as int)
}

/// The destination AMM's share of one reserve, exact in 128-bit arithmetic.
fn amm_share(tokens: u64) -> (r: u64)
    ensures
        r == spec_amm_share(tokens),
        r <= tokens,
{
    proof {
        lemma_mul_div_le(tokens as int, MIGRATION_MOVE_NUM as int, MIGRATION_MOVE_DENOM as int);
        lemma_mul_inequality(tokens as int, u64::MAX as int, MIGRATION_MOVE_NUM as int);
    }
    (((tokens as u128) * (MIGRATION_MOVE_NUM as u128)) / (MIGRATION_MOVE_DENOM as u128)) as u64
}

impl BoundPool {
    /// Cumulative meme supply sold off the curve; the pool launches holding
    /// `gamma_m` tokens of meme trading supply.
    pub open spec fn tokens_sold(self) -> int {
        if self.config.gamma_m as int >= self.meme_reserve.tokens as int {
            self.config.gamma_m - self.meme_reserve.tokens
        } else {
            0
        }
    }

    /// The migration trigger: the sold supply has reached `omega_m`, the
    /// pool has not migrated, and it is not locked (a depletion-locked pool
    /// never migrates).
    pub open spec fn spec_migration_due(self) -> bool {
        self.tokens_sold() >= self.config.omega_m && !self.pool_migration && !self.locked
    }

    /// Evaluated after every successful buy-direction settlement: whether
    /// the threshold crossing obliges the caller to begin migration.
    pub fn migration_due(&self) -> (r: bool)
        ensures
            r == self.spec_migration_due(),
    {
        let sold: u64 = if self.config.gamma_m >= self.meme_reserve.tokens {
            self.config.gamma_m - self.meme_reserve.tokens
        } else {
            0
        };
        sold >= self.config.omega_m && !self.pool_migration && !self.locked
    }
}

/// First half of the migration protocol, the transition from curve trading
/// to locked-pending-migration: validates the trigger and the canonical
/// asset ordering, locks the pool against further swaps, and computes the
/// liquidity split. The custody transfers and the destination-pool creation
/// call happen outside; `finish_migration` records their outcome, and the
/// surrounding transaction boundary guarantees the whole is all-or-nothing.
pub fn start_migration(pool: &mut BoundPool) -> (r: Result<MigrationPlan, AmmError>)
    ensures
        match r {
            Ok(plan) => {
                &&& !old(pool).pool_migration
                &&& !old(pool).locked
                &&& old(pool).tokens_sold() >= old(pool).config.omega_m
                &&& plan.meme_to_amm == spec_amm_share(old(pool).meme_reserve.tokens)
                &&& plan.quote_to_amm == spec_amm_share(old(pool).quote_reserve.tokens)
                &&& plan.meme_to_amm + plan.meme_residual == old(pool).meme_reserve.tokens
                &&& plan.quote_to_amm + plan.quote_residual == old(pool).quote_reserve.tokens
                &&& plan.token_0_mint == old(pool).meme_reserve.mint
                &&& plan.token_1_mint == old(pool).quote_reserve.mint
                &&& plan.token_0_mint.value < plan.token_1_mint.value
                &&& *final(pool) == (BoundPool { locked: true, ..*old(pool) })
            },
            Err(e) => {
                &&& *final(pool) == *old(pool)
                &&& e == (if old(pool).pool_migration {
                    AmmError::AlreadyMigrated
                } else if old(pool).locked {
                    AmmError::PoolIsLocked
                } else if old(pool).tokens_sold() < old(pool).config.omega_m {
                    AmmError::ThresholdNotReached
                } else {
                    AmmError::OrderingViolation
                })
                &&& {
                    ||| old(pool).pool_migration
                    ||| old(pool).locked
                    ||| old(pool).tokens_sold() < old(pool).config.omega_m
                    ||| old(pool).meme_reserve.mint.value >= old(pool).quote_reserve.mint.value
                }
            },
        },
{
    if pool.pool_migration {
        return Err(AmmError::AlreadyMigrated);
    }
    if pool.locked {
        return Err(AmmError::PoolIsLocked);
    }
    if !pool.migration_due() {
        return Err(AmmError::ThresholdNotReached);
    }
    // the destination protocol requires the lower asset identifier first,
    // and this must fail before any transfer is authorized
    if pool.meme_reserve.mint.value >= pool.quote_reserve.mint.value {
        return Err(AmmError::OrderingViolation);
    }
    let meme_to_amm = amm_share(pool.meme_reserve.tokens);
    let quote_to_amm = amm_share(pool.quote_reserve.tokens);
    let plan = MigrationPlan {
        meme_to_amm,
        quote_to_amm,
        meme_residual: pool.meme_reserve.tokens - meme_to_amm,
        quote_residual: pool.quote_reserve.tokens - quote_to_amm,
        token_0_mint: pool.meme_reserve.mint,
        token_1_mint: pool.quote_reserve.mint,
    };
    // no further swaps are admitted from here on
    pool.locked = true;
    Ok(plan)
}

/// Second half of the migration protocol: records the outcome of the
/// external AMM creation call. `created_pool` carries the destination pool
/// identity, or `None` when the protocol rejected the creation; `plan` must
/// be the split `start_migration` computed for this pool. On success the
/// reserves drop to their residual shares and the pool is marked migrated,
/// at most once per pool; every failure leaves the pool untouched for the
/// surrounding transaction boundary to unwind.
pub fn finish_migration(pool: &mut BoundPool, plan: MigrationPlan, created_pool: Option<AssetId>)
    -> (r: Result<(), AmmError>)
    ensures
        match r {
            Ok(_) => match created_pool {
                Some(key) => {
                    &&& !old(pool).pool_migration
                    &&& old(pool).locked
                    &&& plan.meme_to_amm + plan.meme_residual == old(pool).meme_reserve.tokens
                    &&& plan.quote_to_amm + plan.quote_residual == old(pool).quote_reserve.tokens
                    &&& *final(pool) == (BoundPool {
                        meme_reserve: (Reserve {
                            tokens: plan.meme_residual,
                            ..old(pool).meme_reserve
                        }),
                        quote_reserve: (Reserve {
                            tokens: plan.quote_residual,
                            ..old(pool).quote_reserve
                        }),
                        pool_migration: true,
                        migration_pool_key: key,
                        ..*old(pool)
                    })
                },
                None => false,
            },
            Err(e) => {
                &&& *final(pool) == *old(pool)
                &&& e == (if old(pool).pool_migration {
                    AmmError::AlreadyMigrated
                } else if !old(pool).locked || plan.meme_to_amm + plan.meme_residual != old(
                    pool,
                ).meme_reserve.tokens || plan.quote_to_amm + plan.quote_residual != old(
                    pool,
                ).quote_reserve.tokens {
                    AmmError::ArithmeticFault
                } else {
                    AmmError::CreationFailure
                })
                &&& {
                    ||| old(pool).pool_migration
                    ||| !old(pool).locked
                    ||| plan.meme_to_amm + plan.meme_residual != old(pool).meme_reserve.tokens
                    ||| plan.quote_to_amm + plan.quote_residual != old(pool).quote_reserve.tokens
                    ||| created_pool is None
                }
            },
        },
{
    if pool.pool_migration {
        return Err(AmmError::AlreadyMigrated);
    }
    if !pool.locked {
        return Err(AmmError::ArithmeticFault);
    }
    if (plan.meme_to_amm as u128) + (plan.meme_residual as u128) != (
    pool.meme_reserve.tokens as u128) {
        return Err(AmmError::ArithmeticFault);
    }
    if (plan.quote_to_amm as u128) + (plan.quote_residual as u128) != (
    pool.quote_reserve.tokens as u128) {
        return Err(AmmError::ArithmeticFault);
    }
    let key = match created_pool {
        Some(k) => k,
        None => {
            return Err(AmmError::CreationFailure);
        },
    };
    pool.meme_reserve.tokens = plan.meme_residual;
    pool.quote_reserve.tokens = plan.quote_residual;
    pool.pool_migration = true;
    pool.migration_pool_key = key;
    Ok(())
}

} // verus!
