//! The band in which an asset's share of the pool must stay after a trade.
use vstd::prelude::*;
use crate::accounts::BASE_TOKEN_ID;
use crate::accounts::BPS_DIVIDER;
use crate::accounts::WEIGHT_MULTIPLIER;
use crate::errors::QuoteError;
use crate::fixed_point::spec_mul_div;
use crate::token_swap::SymmetryTokenSwap;

verus! {

/// The square of the basis-point divider: the scale of a product of two thresholds.
pub open spec fn offset_scale() -> nat {
    (BPS_DIVIDER * BPS_DIVIDER) as nat
}

/// How far, as a fraction of `offset_scale()`, a weight may stray from its target.
pub open spec fn allowed_offset(rebalance_threshold: nat, lp_offset_threshold: nat) -> nat {
    rebalance_threshold * lp_offset_threshold
}

/// The thresholds for which the band is defined: their product is no more than the scale.
pub open spec fn thresholds_in_range(rebalance_threshold: nat, lp_offset_threshold: nat) -> bool {
    allowed_offset(rebalance_threshold, lp_offset_threshold) <= offset_scale()
}

/// The most that an asset with `target_weight` may weigh: the target widened
/// by the offset, and never more than the whole pool.
pub open spec fn max_allowed_weight(target_weight: nat, offset: nat) -> nat {
    let widened = spec_mul_div(target_weight, offset_scale() + offset, offset_scale());
    if widened > WEIGHT_MULTIPLIER {
        WEIGHT_MULTIPLIER as nat
    } else {
        widened
    }
}

/// The least that an asset with `target_weight` may weigh: the target narrowed by the offset.
pub open spec fn min_allowed_weight(target_weight: nat, offset: nat) -> nat {
    spec_mul_div(target_weight, (offset_scale() - offset) as nat, offset_scale())
}

/// Whether a trade takes dust out of the pool: it pays in the base asset for
/// an asset whose target weight is zero.
pub open spec fn is_dust_removal(from_token_id: nat, to_target_weight: nat) -> bool {
    from_token_id == BASE_TOKEN_ID && to_target_weight == 0
}

/// The verdict on the weights that a trade would leave: the asset taken in
/// may not exceed its ceiling, unless dust is removed, and the asset handed
/// out may not fall below its floor.
pub open spec fn spec_check_weights(
    from_new_weight: nat,
    to_new_weight: nat,
    from_target_weight: nat,
    to_target_weight: nat,
    offset: nat,
    removing_dust: bool,
) -> Result<(), QuoteError> {
    if from_new_weight > max_allowed_weight(from_target_weight, offset) && !removing_dust {
        Err(QuoteError::SellerWeightExceeded)
    } else if to_new_weight < min_allowed_weight(to_target_weight, offset) {
        Err(QuoteError::BuyerWeightBelowMinimum)
    } else {
        Ok(())
    }
}

/// Removing dust lifts the seller's bound and nothing else: such a trade is
/// allowed exactly when the buyer's floor holds, whatever the seller's weight.
pub proof fn dust_removal_lifts_seller_bound(
    from_new_weight: nat,
    to_new_weight: nat,
    from_target_weight: nat,
    to_target_weight: nat,
    offset: nat,
)
    ensures
        spec_check_weights(
            from_new_weight,
            to_new_weight,
            from_target_weight,
            to_target_weight,
            offset,
            true,
        ) != Err::<(), QuoteError>(QuoteError::SellerWeightExceeded),
        spec_check_weights(
            from_new_weight,
            to_new_weight,
            from_target_weight,
            to_target_weight,
            offset,
            true,
        ) is Ok <==> to_new_weight >= min_allowed_weight(to_target_weight, offset),
        from_new_weight > max_allowed_weight(from_target_weight, offset) ==> spec_check_weights(
            from_new_weight,
            to_new_weight,
            from_target_weight,
            to_target_weight,
            offset,
            false,
        ) == Err::<(), QuoteError>(QuoteError::SellerWeightExceeded),
{
}

/// A trade for an asset whose target weight is zero always meets the buyer's floor.
pub proof fn zero_target_has_no_floor(offset: nat)
    ensures
        min_allowed_weight(0, offset) == 0,
{
    crate::fixed_point::lemma_mul_div_of_zero((offset_scale() - offset) as nat, offset_scale());
}

impl SymmetryTokenSwap {
    /// Holds the weights that a trade would leave against the allowed band.
    pub fn check_weights(
        from_new_weight: u64,
        to_new_weight: u64,
        from_target_weight: u64,
        to_target_weight: u64,
        rebalance_threshold: u64,
        lp_offset_threshold: u64,
        removing_dust: bool,
    ) -> (r: Result<(), QuoteError>)
        requires
            thresholds_in_range(rebalance_threshold as nat, lp_offset_threshold as nat),
        ensures
            r == spec_check_weights(
                from_new_weight as nat,
                to_new_weight as nat,
                from_target_weight as nat,
                to_target_weight as nat,
                allowed_offset(rebalance_threshold as nat, lp_offset_threshold as nat),
                removing_dust,
            ),
    {
        let scale: u64 = BPS_DIVIDER * BPS_DIVIDER;
        assert(rebalance_threshold * lp_offset_threshold <= 100_000_000);
        let offset: u64 = rebalance_threshold * lp_offset_threshold;
        let mut allowed_from_target_weight = Self::mul_div(
            from_target_weight,
            scale + offset,
            scale,
        );
        let allowed_to_target_weight = Self::mul_div(to_target_weight, scale - offset, scale);
        if allowed_from_target_weight > WEIGHT_MULTIPLIER {
            allowed_from_target_weight = WEIGHT_MULTIPLIER;
        }
        if from_new_weight > allowed_from_target_weight && !removing_dust {
            return Err(QuoteError::SellerWeightExceeded);
        }
        if to_new_weight < allowed_to_target_weight {
            return Err(QuoteError::BuyerWeightBelowMinimum);
        }
        Ok(())
    }
}

} // verus!
