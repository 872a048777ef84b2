use vstd::prelude::*;
use crate::curve::{curve_gross_out, curve_out, lemma_curve_bounded, lemma_curve_monotone};
use crate::errors::AmmError;
use crate::fees::Fees;
use crate::math::{
    fee_amount, fee_of, lemma_fee_le, lemma_mul_div_monotone, lemma_mul_div_nonneg,
    lemma_net_monotone, mul_div, mul_div_u64, net_of,
};
use crate::models::{AssetId, Reserve, SwapAmount};
use crate::FEE_SCALE;

verus! {

/// Direction of a trade: spending the quote asset for the meme asset (a
/// buy), or the meme asset for the quote asset (a sell).
#[derive(Clone, Copy, Debug, PartialEq, Eq, Structural)]
pub enum SwapDirection {
    QuoteForMeme,
    MemeForQuote,
}

/// Fixed-point scales of the curve coefficients, so the pricing function is
/// numerically exact across asset decimal mismatches.
#[derive(Clone, Copy, Debug, Default, PartialEq, Eq, Structural)]
pub struct Decimals {
    pub alpha: u64,
    pub beta: u64,
    pub quote: u64,
}

/// Parameterization of the pricing function plus the migration threshold:
/// curve coefficients with their scales, the curve-segment supply bounds
/// `gamma_s` and `gamma_m` (the pool launches holding `gamma_m` meme tokens
/// of trading supply), and `omega_m`, the cumulative-sold level at which
/// migration triggers.
#[derive(Clone, Copy, Debug, Default, PartialEq, Eq, Structural)]
pub struct Config {
    pub alpha_abs: u64,
    pub beta: u64,
    pub price_factor_num: u64,
    pub price_factor_denom: u64,
    pub gamma_s: u64,
    pub gamma_m: u64,
    pub omega_m: u64,
    pub decimals: Decimals,
}

impl Config {
    /// The price factor is a genuine fraction: its denominator is non-zero.
    pub open spec fn well_formed(self) -> bool {
        self.price_factor_denom > 0
    }
}

/// The authoritative per-pool record: both reserves with their custody
/// identities, the accrued admin fees, the fee schedule and curve
/// configuration, and the lock/migration flags. Created once at launch with
/// the full initial meme trading supply; mutated by every swap and at most
/// once by migration.
#[derive(Clone, Copy, Debug, PartialEq, Eq, Structural)]
pub struct BoundPool {
    pub meme_reserve: Reserve,
    pub quote_reserve: Reserve,
    pub admin_fees_meme: u64,
    pub admin_fees_quote: u64,
    pub fee_vault_quote: AssetId,
    pub creator_addr: AssetId,
    pub fees: Fees,
    pub config: Config,
    pub locked: bool,
    pub pool_migration: bool,
    pub migration_pool_key: AssetId,
}

impl BoundPool {
    /// Validity of the configuration a pool was launched with.
    pub open spec fn well_formed(self) -> bool {
        self.fees.well_formed() && self.config.well_formed()
    }

    /// Fee rate charged on the input leg of a trade in `direction`.
    pub open spec fn in_rate(self, direction: SwapDirection) -> int {
        match direction {
            SwapDirection::QuoteForMeme => self.fees.fee_quote_percent as int,
            SwapDirection::MemeForQuote => self.fees.fee_meme_percent as int,
        }
    }

    /// Fee rate charged on the output leg of a trade in `direction`.
    pub open spec fn out_rate(self, direction: SwapDirection) -> int {
        match direction {
            SwapDirection::QuoteForMeme => self.fees.fee_meme_percent as int,
            SwapDirection::MemeForQuote => self.fees.fee_quote_percent as int,
        }
    }

    /// Tokens currently held by the reserve the trade pays into.
    pub open spec fn in_tokens(self, direction: SwapDirection) -> int {
        match direction {
            SwapDirection::QuoteForMeme => self.quote_reserve.tokens as int,
            SwapDirection::MemeForQuote => self.meme_reserve.tokens as int,
        }
    }

    /// Tokens currently held by the reserve the trade pays out of.
    pub open spec fn out_tokens(self, direction: SwapDirection) -> int {
        match direction {
            SwapDirection::QuoteForMeme => self.meme_reserve.tokens as int,
            SwapDirection::MemeForQuote => self.quote_reserve.tokens as int,
        }
    }

    /// Asset identity the trader's destination account must carry.
    pub open spec fn out_mint(self, direction: SwapDirection) -> AssetId {
        match direction {
            SwapDirection::QuoteForMeme => self.meme_reserve.mint,
            SwapDirection::MemeForQuote => self.quote_reserve.mint,
        }
    }

    /// Admin-fee accumulator of the input-side asset.
    pub open spec fn in_admin_acc(self, direction: SwapDirection) -> int {
        match direction {
            SwapDirection::QuoteForMeme => self.admin_fees_quote as int,
            SwapDirection::MemeForQuote => self.admin_fees_meme as int,
        }
    }

    /// Admin-fee accumulator of the output-side asset.
    pub open spec fn out_admin_acc(self, direction: SwapDirection) -> int {
        match direction {
            SwapDirection::QuoteForMeme => self.admin_fees_meme as int,
            SwapDirection::MemeForQuote => self.admin_fees_quote as int,
        }
    }

    /// Admin fee withheld from the input amount `x`.
    pub open spec fn spec_admin_fee_in(self, x: u64, direction: SwapDirection) -> int {
        fee_of(x as int, self.in_rate(direction))
    }

    /// Net tradable input once the input-side fee is withheld.
    pub open spec fn spec_amount_in(self, x: u64, direction: SwapDirection) -> int {
        net_of(x as int, self.in_rate(direction))
    }

    /// Net input scaled by the curve's price factor.
    pub open spec fn spec_scaled_in(self, x: u64, direction: SwapDirection) -> int {
        mul_div(
            self.spec_amount_in(x, direction),
            self.config.price_factor_num as int,
            self.config.price_factor_denom as int,
        )
    }

    /// Gross output the curve grants for input `x` on the current reserves.
    pub open spec fn spec_gross_out(self, x: u64, direction: SwapDirection) -> int {
        curve_gross_out(
            self.out_tokens(direction),
            self.in_tokens(direction),
            self.spec_scaled_in(x, direction),
        )
    }

    /// Admin fee withheld from the gross output.
    pub open spec fn spec_admin_fee_out(self, x: u64, direction: SwapDirection) -> int {
        fee_of(self.spec_gross_out(x, direction), self.out_rate(direction))
    }

    /// Output owed to the trader once the output-side fee is withheld.
    pub open spec fn spec_amount_out(self, x: u64, direction: SwapDirection) -> int {
        net_of(self.spec_gross_out(x, direction), self.out_rate(direction))
    }

    /// The pricing computation faults: the scaled input overflows 64 bits,
    /// or the curve's denominator vanishes (empty input reserve and a net
    /// input that scales to nothing).
    pub open spec fn swap_fault(self, x: u64, direction: SwapDirection) -> bool {
        ||| self.spec_scaled_in(x, direction) > u64::MAX
        ||| self.in_tokens(direction) + self.spec_scaled_in(x, direction) == 0
    }

    /// The settlement faults: one of the three additive updates would
    /// overflow its 64-bit field. (The output-side subtraction never
    /// underflows: the gross output is bounded by the output reserve.)
    pub open spec fn settle_fault(self, x: u64, direction: SwapDirection) -> bool {
        ||| self.in_tokens(direction) + self.spec_amount_in(x, direction) > u64::MAX
        ||| self.in_admin_acc(direction) + self.spec_admin_fee_in(x, direction) > u64::MAX
        ||| self.out_admin_acc(direction) + self.spec_admin_fee_out(x, direction) > u64::MAX
    }

    /// Which failure, if any, a swap of `x` against destination mint
    /// `dst_mint` with slippage limit `limit` is rejected with, in the order
    /// the checks are made.
    pub open spec fn swap_error(
        self,
        dst_mint: AssetId,
        x: u64,
        limit: u64,
        direction: SwapDirection,
    ) -> Option<AmmError> {
        if x == 0 {
            Some(AmmError::NoZeroTokens)
        } else if self.locked {
            Some(AmmError::PoolIsLocked)
        } else if dst_mint != self.out_mint(direction) {
            Some(AmmError::InvalidTokenMints)
        } else if self.swap_fault(x, direction) {
            Some(AmmError::ArithmeticFault)
        } else if self.spec_amount_out(x, direction) < limit {
            Some(AmmError::SlippageExceeded)
        } else if self.settle_fault(x, direction) {
            Some(AmmError::ArithmeticFault)
        } else {
            None
        }
    }

    /// The pool as a successful swap of `x` in `direction` leaves it: the
    /// input reserve grows by the net input, the output reserve shrinks by
    /// the gross output, both admin-fee legs accrue, and the pool locks
    /// itself exactly when the meme reserve is depleted.
    pub open spec fn swap_settled(self, x: u64, direction: SwapDirection) -> BoundPool {
        let new_in = (self.in_tokens(direction) + self.spec_amount_in(x, direction)) as u64;
        let new_out = (self.out_tokens(direction) - self.spec_amount_out(x, direction)
            - self.spec_admin_fee_out(x, direction)) as u64;
        match direction {
            SwapDirection::QuoteForMeme => BoundPool {
                quote_reserve: Reserve { tokens: new_in, ..self.quote_reserve },
                meme_reserve: Reserve { tokens: new_out, ..self.meme_reserve },
                admin_fees_quote: (self.admin_fees_quote + self.spec_admin_fee_in(
                    x,
                    direction,
                )) as u64,
                admin_fees_meme: (self.admin_fees_meme + self.spec_admin_fee_out(
                    x,
                    direction,
                )) as u64,
                locked: new_out == 0,
                ..self
            },
            SwapDirection::MemeForQuote => BoundPool {
                meme_reserve: Reserve { tokens: new_in, ..self.meme_reserve },
                quote_reserve: Reserve { tokens: new_out, ..self.quote_reserve },
                admin_fees_meme: (self.admin_fees_meme + self.spec_admin_fee_in(
                    x,
                    direction,
                )) as u64,
                admin_fees_quote: (self.admin_fees_quote + self.spec_admin_fee_out(
                    x,
                    direction,
                )) as u64,
                locked: new_in == 0,
                ..self
            },
        }
    }

    /// Pure pricing step of a swap: withholds the input-side fee, feeds the
    /// net amount through the pricing curve on the pool's current reserves,
    /// and withholds the output-side fee from the gross output. Reads the
    /// pool, mutates nothing; bit-exact for a fixed pool snapshot, amount
    /// and direction. The slippage limit `limit_value` is the caller's
    /// policy and does not affect the computed amounts.
    pub fn swap_amounts(&self, coin_in_amount: u64, limit_value: u64, direction: SwapDirection)
        -> (r: Result<SwapAmount, AmmError>)
        requires
            self.well_formed(),
            coin_in_amount > 0,
            !self.locked,
        ensures
            match r {
                Ok(sa) => {
                    &&& !self.swap_fault(coin_in_amount, direction)
                    &&& sa.amount_in == self.spec_amount_in(coin_in_amount, direction)
                    &&& sa.admin_fee_in == self.spec_admin_fee_in(coin_in_amount, direction)
                    &&& sa.amount_out == self.spec_amount_out(coin_in_amount, direction)
                    &&& sa.admin_fee_out == self.spec_admin_fee_out(coin_in_amount, direction)
                    &&& sa.amount_in + sa.admin_fee_in == coin_in_amount
                    &&& sa.amount_out + sa.admin_fee_out <= self.out_tokens(direction)
                },
                Err(e) => {
                    &&& self.swap_fault(coin_in_amount, direction)
                    &&& e == AmmError::ArithmeticFault
                },
            },
    {
        let rate_in: u64 = match direction {
            SwapDirection::QuoteForMeme => self.fees.fee_quote_percent,
            SwapDirection::MemeForQuote => self.fees.fee_meme_percent,
        };
        let rate_out: u64 = match direction {
            SwapDirection::QuoteForMeme => self.fees.fee_meme_percent,
            SwapDirection::MemeForQuote => self.fees.fee_quote_percent,
        };
        let in_res: u64 = match direction {
            SwapDirection::QuoteForMeme => self.quote_reserve.tokens,
            SwapDirection::MemeForQuote => self.meme_reserve.tokens,
        };
        let out_res: u64 = match direction {
            SwapDirection::QuoteForMeme => self.meme_reserve.tokens,
            SwapDirection::MemeForQuote => self.quote_reserve.tokens,
        };
        let admin_fee_in = fee_amount(coin_in_amount, rate_in);
        let amount_in = coin_in_amount - admin_fee_in;
        let scaled_in = match mul_div_u64(
            amount_in,
            self.config.price_factor_num,
            self.config.price_factor_denom,
        ) {
            Some(s) => s,
            None => {
                return Err(AmmError::ArithmeticFault);
            },
        };
        if in_res == 0 && scaled_in == 0 {
            return Err(AmmError::ArithmeticFault);
        }
        let gross_out = curve_out(out_res, in_res, scaled_in);
        let admin_fee_out = fee_amount(gross_out, rate_out);
        let amount_out = gross_out - admin_fee_out;
        let _ = limit_value;
        Ok(SwapAmount { amount_in, amount_out, admin_fee_in, admin_fee_out })
    }
}

/// The depletion condition: a pool locks exactly when its meme reserve is
/// exhausted.
pub fn should_pool_be_locked(meme_reserve: u64) -> (r: bool)
    ensures
        r == (meme_reserve == 0),
{
    meme_reserve == 0
}

/// Executes one swap instruction against the pool: validates the request,
/// prices it with `swap_amounts`, applies the caller's slippage limit, and
/// settles reserves and admin fees atomically with the depletion lock. On
/// any failure the pool is left untouched. The two physical custody
/// transfers are the surrounding runtime's concern and must succeed or fail
/// together with this settlement.
pub fn swap(
    pool: &mut BoundPool,
    dst_mint: AssetId,
    coin_in_amount: u64,
    min_amount_out: u64,
    direction: SwapDirection,
) -> (r: Result<(u64, u64), AmmError>)
    requires
        old(pool).well_formed(),
    ensures
        (match r {
            Ok(amounts) => {
                &&& old(pool).swap_error(dst_mint, coin_in_amount, min_amount_out, direction)
                    is None
                &&& amounts.0 == old(pool).spec_amount_in(coin_in_amount, direction)
                &&& amounts.1 == old(pool).spec_amount_out(coin_in_amount, direction)
                &&& *final(pool) == old(pool).swap_settled(coin_in_amount, direction)
            },
            Err(e) => {
                &&& old(pool).swap_error(dst_mint, coin_in_amount, min_amount_out, direction)
                    == Some(e)
                &&& *final(pool) == *old(pool)
            },
        }),
        // conservation: what leaves one reserve goes exactly to the trader
        // and the admin-fee leg, and the other reserve grows by the net input
        r is Ok ==> final(pool).out_tokens(direction) + old(pool).spec_amount_out(
            coin_in_amount,
            direction,
        ) + old(pool).spec_admin_fee_out(coin_in_amount, direction) == old(pool).out_tokens(
            direction,
        ),
        r is Ok ==> final(pool).in_tokens(direction) == old(pool).in_tokens(direction) + old(
            pool,
        ).spec_amount_in(coin_in_amount, direction),
        r is Ok ==> old(pool).spec_amount_in(coin_in_amount, direction) + old(
            pool,
        ).spec_admin_fee_in(coin_in_amount, direction) == coin_in_amount,
        // depletion auto-lock, atomic with the settlement itself
        r is Ok ==> (final(pool).locked <==> final(pool).meme_reserve.tokens == 0),
        // zero input is rejected outright
        coin_in_amount == 0 ==> r == Err::<(u64, u64), AmmError>(AmmError::NoZeroTokens),
        // a locked pool rejects every swap and stays untouched
        old(pool).locked && coin_in_amount > 0 ==> r == Err::<(u64, u64), AmmError>(
            AmmError::PoolIsLocked,
        ),
        // a wrong destination mint is rejected before any pricing
        coin_in_amount > 0 && !old(pool).locked && dst_mint != old(pool).out_mint(direction)
            ==> r == Err::<(u64, u64), AmmError>(AmmError::InvalidTokenMints),
        // a swap never flips the migration state or any identity or rate
        final(pool).pool_migration == old(pool).pool_migration,
        final(pool).migration_pool_key == old(pool).migration_pool_key,
        final(pool).meme_reserve.mint == old(pool).meme_reserve.mint,
        final(pool).quote_reserve.mint == old(pool).quote_reserve.mint,
        final(pool).fees == old(pool).fees,
        final(pool).config == old(pool).config,
        // a lock is permanent: no swap ever unlocks a pool
        old(pool).locked ==> final(pool).locked,
{
    if coin_in_amount == 0 {
        return Err(AmmError::NoZeroTokens);
    }
    if pool.locked {
        return Err(AmmError::PoolIsLocked);
    }
    let expected_mint = match direction {
        SwapDirection::QuoteForMeme => pool.meme_reserve.mint,
        SwapDirection::MemeForQuote => pool.quote_reserve.mint,
    };
    if dst_mint != expected_mint {
        return Err(AmmError::InvalidTokenMints);
    }
    let sa = match pool.swap_amounts(coin_in_amount, min_amount_out, direction) {
        Ok(sa) => sa,
        Err(e) => {
            return Err(e);
        },
    };
    if sa.amount_out < min_amount_out {
        return Err(AmmError::SlippageExceeded);
    }
    match direction {
        SwapDirection::QuoteForMeme => {
            if sa.amount_in > u64::MAX - pool.quote_reserve.tokens {
                return Err(AmmError::ArithmeticFault);
            }
            if sa.admin_fee_in > u64::MAX - pool.admin_fees_quote {
                return Err(AmmError::ArithmeticFault);
            }
            if sa.admin_fee_out > u64::MAX - pool.admin_fees_meme {
                return Err(AmmError::ArithmeticFault);
            }
            pool.admin_fees_quote = pool.admin_fees_quote + sa.admin_fee_in;
            pool.admin_fees_meme = pool.admin_fees_meme + sa.admin_fee_out;
            pool.quote_reserve.tokens = pool.quote_reserve.tokens + sa.amount_in;
            pool.meme_reserve.tokens = pool.meme_reserve.tokens - (sa.amount_out
                + sa.admin_fee_out);
            if should_pool_be_locked(pool.meme_reserve.tokens) {
                pool.locked = true;
            }
            Ok((sa.amount_in, sa.amount_out))
        },
        SwapDirection::MemeForQuote => {
            if sa.amount_in > u64::MAX - pool.meme_reserve.tokens {
                return Err(AmmError::ArithmeticFault);
            }
            if sa.admin_fee_in > u64::MAX - pool.admin_fees_meme {
                return Err(AmmError::ArithmeticFault);
            }
            if sa.admin_fee_out > u64::MAX - pool.admin_fees_quote {
                return Err(AmmError::ArithmeticFault);
            }
            pool.admin_fees_meme = pool.admin_fees_meme + sa.admin_fee_in;
            pool.admin_fees_quote = pool.admin_fees_quote + sa.admin_fee_out;
            pool.meme_reserve.tokens = pool.meme_reserve.tokens + sa.amount_in;
            pool.quote_reserve.tokens = pool.quote_reserve.tokens - (sa.amount_out
                + sa.admin_fee_out);
            if should_pool_be_locked(pool.meme_reserve.tokens) {
                pool.locked = true;
            }
            Ok((sa.amount_in, sa.amount_out))
        },
    }
}

/// Swap instruction surface: spend `coin_in_amount` of the quote asset for
/// the meme asset. `dst_mint` is the asset identity of the caller-supplied
/// destination account, which must be the pool's meme mint; `min_amount_out`
/// is the caller's slippage limit. Returns the realized
/// `(amount_in, amount_out)`.
pub fn quote_for_meme(
    pool: &mut BoundPool,
    dst_mint: AssetId,
    coin_in_amount: u64,
    min_amount_out: u64,
) -> (r: Result<(u64, u64), AmmError>)
    requires
        old(pool).well_formed(),
    ensures
        match r {
            Ok(amounts) => {
                &&& old(pool).swap_error(
                    dst_mint,
                    coin_in_amount,
                    min_amount_out,
                    SwapDirection::QuoteForMeme,
                ) is None
                &&& amounts.0 == old(pool).spec_amount_in(
                    coin_in_amount,
                    SwapDirection::QuoteForMeme,
                )
                &&& amounts.1 == old(pool).spec_amount_out(
                    coin_in_amount,
                    SwapDirection::QuoteForMeme,
                )
                &&& *final(pool) == old(pool).swap_settled(
                    coin_in_amount,
                    SwapDirection::QuoteForMeme,
                )
            },
            Err(e) => {
                &&& old(pool).swap_error(
                    dst_mint,
                    coin_in_amount,
                    min_amount_out,
                    SwapDirection::QuoteForMeme,
                ) == Some(e)
                &&& *final(pool) == *old(pool)
            },
        },
{
    swap(pool, dst_mint, coin_in_amount, min_amount_out, SwapDirection::QuoteForMeme)
}

/// Swap instruction surface: spend `coin_in_amount` of the meme asset for
/// the quote asset. `dst_mint` is the asset identity of the caller-supplied
/// destination account, which must be the pool's quote mint; `min_amount_out`
/// is the caller's slippage limit. Returns the realized
/// `(amount_in, amount_out)`.
pub fn meme_for_quote(
    pool: &mut BoundPool,
    dst_mint: AssetId,
    coin_in_amount: u64,
    min_amount_out: u64,
) -> (r: Result<(u64, u64), AmmError>)
    requires
        old(pool).well_formed(),
    ensures
        match r {
            Ok(amounts) => {
                &&& old(pool).swap_error(
                    dst_mint,
                    coin_in_amount,
                    min_amount_out,
                    SwapDirection::MemeForQuote,
                ) is None
                &&& amounts.0 == old(pool).spec_amount_in(
                    coin_in_amount,
                    SwapDirection::MemeForQuote,
                )
                &&& amounts.1 == old(pool).spec_amount_out(
                    coin_in_amount,
                    SwapDirection::MemeForQuote,
                )
                &&& *final(pool) == old(pool).swap_settled(
                    coin_in_amount,
                    SwapDirection::MemeForQuote,
                )
            },
            Err(e) => {
                &&& old(pool).swap_error(
                    dst_mint,
                    coin_in_amount,
                    min_amount_out,
                    SwapDirection::MemeForQuote,
                ) == Some(e)
                &&& *final(pool) == *old(pool)
            },
        },
{
    swap(pool, dst_mint, coin_in_amount, min_amount_out, SwapDirection::MemeForQuote)
}

/// Monotone pricing: for a fixed pool state and direction, the output owed
/// to the trader never decreases as the requested input amount grows.
pub proof fn lemma_swap_out_monotone(pool: BoundPool, x1: u64, x2: u64, direction: SwapDirection)
    requires
        pool.well_formed(),
        0 < x1 <= x2,
    ensures
        pool.spec_amount_out(x1, direction) <= pool.spec_amount_out(x2, direction),
{
    let rin = pool.in_rate(direction);
    let rout = pool.out_rate(direction);
    let num = pool.config.price_factor_num as int;
    let den = pool.config.price_factor_denom as int;
    assert(0 <= rin <= FEE_SCALE as int && 0 <= rout <= FEE_SCALE as int);
    lemma_fee_le(x1 as int, rin);
    lemma_fee_le(x2 as int, rin);
    lemma_net_monotone(x1 as int, x2 as int, rin);
    let n1 = pool.spec_amount_in(x1, direction);
    let n2 = pool.spec_amount_in(x2, direction);
    lemma_mul_div_nonneg(n1, num, den);
    lemma_mul_div_monotone(n1, n2, num, den);
    let s1 = pool.spec_scaled_in(x1, direction);
    let s2 = pool.spec_scaled_in(x2, direction);
    lemma_curve_bounded(pool.out_tokens(direction), pool.in_tokens(direction), s1);
    lemma_curve_monotone(pool.out_tokens(direction), pool.in_tokens(direction), s1, s2);
    let g1 = pool.spec_gross_out(x1, direction);
    let g2 = pool.spec_gross_out(x2, direction);
    lemma_net_monotone(g1, g2, rout);
}

/// Lock exclusivity: once a pool is locked — by depletion or by migration —
/// every swap request with a positive amount is rejected with the lock
/// failure (a zero amount is rejected even earlier), so no settlement can
/// ever follow on a locked pool.
pub proof fn lemma_locked_pool_rejects_swaps(
    pool: BoundPool,
    dst_mint: AssetId,
    coin_in_amount: u64,
    min_amount_out: u64,
    direction: SwapDirection,
)
    requires
        pool.locked,
        coin_in_amount > 0,
    ensures
        pool.swap_error(dst_mint, coin_in_amount, min_amount_out, direction) == Some(
            AmmError::PoolIsLocked,
        ),
{
}

} // verus!
