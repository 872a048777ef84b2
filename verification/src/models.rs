use vstd::prelude::*;

verus! {

/// Identity of an asset type, a custody account, or a participant address on
/// the ledger. The engine only ever reads an identity for equality and for
/// the destination AMM's canonical ordering, so it is modelled as a plain
/// ordered value.
#[derive(Clone, Copy, Debug, Default, PartialEq, Eq, Structural)]
pub struct AssetId {
    pub value: u64,
}

impl AssetId {
    /// Wraps a raw identifier value.
    pub fn new(value: u64) -> (r: AssetId)
        ensures
            r.value == value,
    {
        AssetId { value }
    }
}

/// Custody balance of one asset side of a pool: the current token count and
/// the identities of the asset type and of the custody vault holding it.
#[derive(Clone, Copy, Debug, Default, PartialEq, Eq, Structural)]
pub struct Reserve {
    pub tokens: u64,
    pub mint: AssetId,
    pub vault: AssetId,
}

/// Result of one swap computation: the net tradable input, the output owed
/// to the trader, and the two admin-fee legs withheld on the way in and on
/// the way out. Produced fresh per trade, never persisted.
#[derive(Clone, Copy, Debug, PartialEq, Eq, Structural)]
pub struct SwapAmount {
    pub amount_in: u64,
    pub amount_out: u64,
    pub admin_fee_in: u64,
    pub admin_fee_out: u64,
}

/// External configuration consumed by pool creation: the target amount of
/// the quote token and the two mints the record is addressed by.
#[derive(Clone, Copy, Debug, Default, PartialEq, Eq, Structural)]
pub struct TargetConfig {
    pub token_target_amount: u64,
    pub token_mint: AssetId,
    pub pair_token_mint: AssetId,
}

impl TargetConfig {
    /// The compute part of target-config initialization: records the target
    /// amount and associates the two mints. Account creation and rent are
    /// the surrounding runtime's concern.
    pub fn new(token_target_amount: u64, token_mint: AssetId, pair_token_mint: AssetId) -> (r:
        TargetConfig)
        ensures
            r.token_target_amount == token_target_amount,
            r.token_mint == token_mint,
            r.pair_token_mint == pair_token_mint,
    {
        TargetConfig { token_target_amount, token_mint, pair_token_mint }
    }
}

} // verus!
