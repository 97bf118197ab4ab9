//! Why a quote is refused.
use vstd::prelude::*;

verus! {

/// The side of a trade that an asset stands on.
#[derive(Clone, Copy, Debug, PartialEq, Eq, Structural)]
pub enum TradeSide {
    /// The asset that the pool takes in.
    From,
    /// The asset that the pool hands out.
    To,
}

/// The reasons for which the pool refuses to quote a trade.
#[derive(Clone, Copy, Debug, PartialEq, Eq, Structural)]
pub enum QuoteError {
    /// The pool's manager has disabled trading against it.
    LiquidityProvisionDisabled,
    /// The asset is not in the list of supported tokens.
    AssetNotSupported(TradeSide),
    /// The pool does not hold the asset.
    AssetNotInComposition(TradeSide),
    /// The price feed of an asset that the pool holds is not live.
    OracleStale,
    /// After the trade the asset taken in would weigh more than it may.
    SellerWeightExceeded,
    /// After the trade the asset handed out would weigh less than it must.
    BuyerWeightBelowMinimum,
}

} // verus!
