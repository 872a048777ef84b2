use vstd::prelude::*;
use crate::FEE_SCALE;

verus! {

/// Fixed-point fee rates of one pool, at scale `FEE_SCALE`: the meme-side
/// rate is charged on the meme leg of a trade and the quote-side rate on the
/// quote leg, whichever direction each leg flows.
#[derive(Clone, Copy, Debug, Default, PartialEq, Eq, Structural)]
pub struct Fees {
    pub fee_meme_percent: u64,
    pub fee_quote_percent: u64,
}

impl Fees {
    /// A rate above 100% would make the fee exceed the amount it is charged
    /// on; both rates stay within the fixed-point scale.
    pub open spec fn well_formed(self) -> bool {
        self.fee_meme_percent <= FEE_SCALE && self.fee_quote_percent <= FEE_SCALE
    }
}

} // verus!
