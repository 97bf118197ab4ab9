//! The quote: what a trade gives, what it costs, and whether it is allowed.
use vstd::prelude::*;
use crate::accounts::curve_of;
use crate::accounts::Address;
use crate::accounts::Holding;
use crate::accounts::TokenSettings;
use crate::accounts::BASE_TOKEN_ID;
use crate::accounts::WEIGHT_MULTIPLIER;
use crate::buy_curve::buy_defined;
use crate::buy_curve::spec_compute_amount_of_bought_token;
use crate::composition::all_oracles_live;
use crate::composition::spec_fund_worth;
use crate::composition::TradeLegs;
use crate::errors::QuoteError;
use crate::fees::pool_share;
use crate::fixed_point::spec_amount_to_usd_value;
use crate::fixed_point::spec_mul_div;
use crate::fixed_point::spec_usd_value_to_amount;
use crate::sell_curve::spec_compute_value_of_sold_token;
use crate::token_swap::SymmetryTokenSwap;
use crate::weights::allowed_offset;
use crate::weights::is_dust_removal;
use crate::weights::max_allowed_weight;
use crate::weights::spec_check_weights;
use crate::weights::zero_target_has_no_floor;

verus! {

/// Decimal places of the fee percentage of a quote.
pub const FEE_PCT_SCALE: u32 = 4;

/// The fee percentage of a trade that is all fee: a hundred, at `FEE_PCT_SCALE` places.
pub const FEE_PCT_WHOLE: u64 = 1000000;

/// A trade to be quoted: `in_amount` raw units of the token minted at
/// `input_mint`, for the token minted at `output_mint`.
#[derive(Clone, Copy, Debug)]
pub struct QuoteParams {
    pub in_amount: u64,
    pub input_mint: Address,
    pub output_mint: Address,
}

/// What the pool offers for a trade.
#[derive(Clone, Copy, Debug)]
pub struct Quote {
    /// Raw units taken in.
    pub in_amount: u64,
    /// Raw units handed out.
    pub out_amount: u64,
    /// Raw units of the token handed out that the trade costs in fees.
    pub fee_amount: u64,
    /// The token in which the fee is counted: the one handed out.
    pub fee_mint: Address,
    /// The fee as a percentage of the amount that the middle prices would
    /// give, with `FEE_PCT_SCALE` decimal places.
    pub fee_pct: u64,
}

/// The raw units at which a holding would have its target weight in a pool worth `fund_worth`.
pub open spec fn spec_target_amount(
    holding: Holding,
    settings: TokenSettings,
    fund_worth: nat,
    weight_sum: nat,
) -> nat {
    spec_usd_value_to_amount(
        spec_mul_div(holding.target_weight as nat, fund_worth, weight_sum),
        settings.decimals as nat,
        settings.oracle_price.avg_price as nat,
    )
}

/// What `amount` raw units of one token come to in another, through their
/// USD value, at one price each and without fees.
pub open spec fn spec_spot_amount(
    amount: nat,
    from_decimals: nat,
    from_price: nat,
    to_decimals: nat,
    to_price: nat,
) -> nat {
    spec_usd_value_to_amount(
        spec_amount_to_usd_value(amount, from_decimals, from_price),
        to_decimals,
        to_price,
    )
}

/// An amount with the margin of one hundredth that guards the weights
/// against the price moving before the trade settles.
pub open spec fn safe_amount(amount: nat) -> nat {
    (amount * 101) / 100
}

/// `a` less `b`, and zero where `b` is the larger.
pub open spec fn minus_or_zero(a: nat, b: nat) -> nat {
    if a < b {
        0
    } else {
        (a - b) as nat
    }
}

/// The smaller of two numbers.
pub open spec fn smaller(a: nat, b: nat) -> nat {
    if a < b {
        a
    } else {
        b
    }
}

impl SymmetryTokenSwap {
    /// The holding that the trade adds to.
    pub open spec fn from_holding(&self, legs: TradeLegs) -> Holding {
        self.fund_state.composition@[legs.from_index as int]
    }

    /// The holding that the trade takes from.
    pub open spec fn to_holding(&self, legs: TradeLegs) -> Holding {
        self.fund_state.composition@[legs.to_index as int]
    }

    /// The settings of the token taken in.
    pub open spec fn from_settings(&self, legs: TradeLegs) -> TokenSettings {
        self.token_list.list@[legs.from_token_id as int]
    }

    /// The settings of the token handed out.
    pub open spec fn to_settings(&self, legs: TradeLegs) -> TokenSettings {
        self.token_list.list@[legs.to_token_id as int]
    }

    /// The USD value of the pool before the trade.
    pub open spec fn worth(&self) -> nat {
        spec_fund_worth(self.fund_state.composition@, self.token_list.list@)
    }

    /// The USD value, net of fees, that the curve gives for the amount taken in.
    pub open spec fn spec_sold_value(&self, legs: TradeLegs, amount: nat) -> nat {
        spec_compute_value_of_sold_token(
            amount,
            self.from_settings(legs),
            self.from_settings(legs).oracle_price,
            self.from_holding(legs).amount as nat,
            spec_target_amount(
                self.from_holding(legs),
                self.from_settings(legs),
                self.worth(),
                self.fund_state.weight_sum as nat,
            ),
            curve_of(self.curve_data.sell@, legs.from_token_id as int),
        )
    }

    /// The raw units that the curve gives for that value.
    pub open spec fn spec_bought_amount(&self, legs: TradeLegs, amount: nat) -> nat {
        spec_compute_amount_of_bought_token(
            self.spec_sold_value(legs, amount),
            self.to_settings(legs),
            self.to_settings(legs).oracle_price,
            self.to_holding(legs).amount as nat,
            spec_target_amount(
                self.to_holding(legs),
                self.to_settings(legs),
                self.worth(),
                self.fund_state.weight_sum as nat,
            ),
            curve_of(self.curve_data.buy@, legs.to_token_id as int),
        )
    }

    /// What the oracle's sell and buy prices alone would give, and never
    /// more than the pool holds.
    pub open spec fn spec_amount_without_fees(&self, legs: TradeLegs, amount: nat) -> nat {
        smaller(
            spec_spot_amount(
                amount,
                self.from_settings(legs).decimals as nat,
                self.from_settings(legs).oracle_price.sell_price as nat,
                self.to_settings(legs).decimals as nat,
                self.to_settings(legs).oracle_price.buy_price as nat,
            ),
            self.to_holding(legs).amount as nat,
        )
    }

    /// What the oracle's middle prices would give.
    pub open spec fn spec_fair_amount(&self, legs: TradeLegs, amount: nat) -> nat {
        spec_spot_amount(
            amount,
            self.from_settings(legs).decimals as nat,
            self.from_settings(legs).oracle_price.avg_price as nat,
            self.to_settings(legs).decimals as nat,
            self.to_settings(legs).oracle_price.avg_price as nat,
        )
    }

    /// The raw units that the trade hands out: what the curves give, capped
    /// by what the oracle prices give and by what the pool holds.
    pub open spec fn spec_out_amount(&self, legs: TradeLegs, amount: nat) -> nat {
        smaller(self.spec_bought_amount(legs, amount), self.spec_amount_without_fees(legs, amount))
    }

    /// What the trade costs: the difference between the capped oracle amount
    /// and the amount handed out.
    pub open spec fn spec_total_fees(&self, legs: TradeLegs, amount: nat) -> nat {
        (self.spec_amount_without_fees(legs, amount) - self.spec_out_amount(legs, amount)) as nat
    }

    /// That cost as a percentage of the fair amount.
    pub open spec fn spec_fee_pct(&self, legs: TradeLegs, amount: nat) -> nat {
        spec_mul_div(
            self.spec_total_fees(legs, amount),
            FEE_PCT_WHOLE as nat,
            self.spec_fair_amount(legs, amount),
        )
    }

    /// The USD value of the holding added to, before the trade.
    pub open spec fn spec_from_worth_before(&self, legs: TradeLegs) -> nat {
        spec_amount_to_usd_value(
            self.from_holding(legs).amount as nat,
            self.from_settings(legs).decimals as nat,
            self.from_settings(legs).oracle_price.avg_price as nat,
        )
    }

    /// The USD value of the holding taken from, before the trade.
    pub open spec fn spec_to_worth_before(&self, legs: TradeLegs) -> nat {
        spec_amount_to_usd_value(
            self.to_holding(legs).amount as nat,
            self.to_settings(legs).decimals as nat,
            self.to_settings(legs).oracle_price.avg_price as nat,
        )
    }

    /// The USD value of the holding added to, once the amount taken in and
    /// its margin have been added.
    pub open spec fn spec_from_worth_after(&self, legs: TradeLegs, amount: nat) -> nat {
        spec_amount_to_usd_value(
            self.from_holding(legs).amount as nat + safe_amount(amount),
            self.from_settings(legs).decimals as nat,
            self.from_settings(legs).oracle_price.avg_price as nat,
        )
    }

    /// The raw units that leave the holding taken from, as the weights see
    /// them: the capped oracle amount less the pool's own part of the fee,
    /// with its margin, and never more than the pool holds.
    pub open spec fn spec_safe_to_amount(&self, legs: TradeLegs, amount: nat) -> nat {
        smaller(
            safe_amount(
                (self.spec_amount_without_fees(legs, amount) - pool_share(
                    self.spec_total_fees(legs, amount),
                    self.token_list.fee_recipients,
                )) as nat,
            ),
            self.to_holding(legs).amount as nat,
        )
    }

    /// The USD value of the holding taken from, once those units have left.
    pub open spec fn spec_to_worth_after(&self, legs: TradeLegs, amount: nat) -> nat {
        spec_amount_to_usd_value(
            (self.to_holding(legs).amount - self.spec_safe_to_amount(legs, amount)) as nat,
            self.to_settings(legs).decimals as nat,
            self.to_settings(legs).oracle_price.avg_price as nat,
        )
    }

    /// The USD value of the pool with both new holdings counted and both old
    /// ones not yet taken out.
    pub open spec fn spec_worth_with_both(&self, legs: TradeLegs, amount: nat) -> nat {
        self.worth() + self.spec_from_worth_after(legs, amount) + self.spec_to_worth_after(
            legs,
            amount,
        )
    }

    /// The USD value of the pool after the trade.
    pub open spec fn spec_worth_after(&self, legs: TradeLegs, amount: nat) -> nat {
        minus_or_zero(
            minus_or_zero(
                self.spec_worth_with_both(legs, amount),
                self.spec_from_worth_before(legs),
            ),
            self.spec_to_worth_before(legs),
        )
    }

    /// The weight, out of `WEIGHT_MULTIPLIER`, of the holding added to, after the trade.
    pub open spec fn spec_from_new_weight(&self, legs: TradeLegs, amount: nat) -> nat {
        spec_mul_div(
            self.spec_from_worth_after(legs, amount),
            WEIGHT_MULTIPLIER as nat,
            self.spec_worth_after(legs, amount),
        )
    }

    /// The weight, out of `WEIGHT_MULTIPLIER`, of the holding taken from, after the trade.
    pub open spec fn spec_to_new_weight(&self, legs: TradeLegs, amount: nat) -> nat {
        spec_mul_div(
            self.spec_to_worth_after(legs, amount),
            WEIGHT_MULTIPLIER as nat,
            self.spec_worth_after(legs, amount),
        )
    }

    /// The verdict of the weight band on the trade.
    pub open spec fn spec_weights_verdict(&self, legs: TradeLegs, amount: nat) -> Result<
        (),
        QuoteError,
    > {
        spec_check_weights(
            self.spec_from_new_weight(legs, amount),
            self.spec_to_new_weight(legs, amount),
            self.from_holding(legs).target_weight as nat,
            self.to_holding(legs).target_weight as nat,
            allowed_offset(
                self.fund_state.rebalance_threshold as nat,
                self.fund_state.lp_offset_threshold as nat,
            ),
            is_dust_removal(legs.from_token_id as nat, self.to_holding(legs).target_weight as nat),
        )
    }

    /// The trades whose every intermediate quantity fits in a `u64`: the
    /// pool's worth, the value sold, the units bought by a purchase that is
    /// well defined, the holding added to with its margin, and the pool's
    /// worth with both new holdings counted.
    pub open spec fn trade_in_range(&self, legs: TradeLegs, amount: nat) -> bool {
        &&& self.worth() <= u64::MAX
        &&& self.spec_sold_value(legs, amount) <= u64::MAX
        &&& buy_defined(
            self.spec_sold_value(legs, amount),
            self.to_settings(legs),
            self.to_settings(legs).oracle_price,
            self.to_holding(legs).amount as nat,
            spec_target_amount(
                self.to_holding(legs),
                self.to_settings(legs),
                self.worth(),
                self.fund_state.weight_sum as nat,
            ),
            curve_of(self.curve_data.buy@, legs.to_token_id as int),
        )
        &&& self.spec_bought_amount(legs, amount) <= u64::MAX
        &&& self.from_holding(legs).amount + safe_amount(amount) <= u64::MAX
        &&& self.spec_worth_with_both(legs, amount) <= u64::MAX
    }

    /// The quotes that are computed: those refused before any arithmetic,
    /// and those of trades in range.
    pub open spec fn quote_in_range(&self, quote_params: QuoteParams) -> bool {
        self.fund_state.lp_disabled || match self.spec_resolve(
            quote_params.input_mint@,
            quote_params.output_mint@,
        ) {
            Err(_) => true,
            Ok(legs) => !all_oracles_live(self.fund_state.composition@, self.token_list.list@)
                || self.trade_in_range(legs, quote_params.in_amount as nat),
        }
    }

    /// The quote of a trade between two assets that the pool holds, with
    /// every price feed live: the verdict of the weight band, and where it
    /// allows the trade, the amounts.
    pub open spec fn spec_quote_of_legs(&self, legs: TradeLegs, quote_params: QuoteParams) -> Result<
        Quote,
        QuoteError,
    > {
        let amount = quote_params.in_amount as nat;
        match self.spec_weights_verdict(legs, amount) {
            Err(e) => Err(e),
            Ok(_) => Ok(
                Quote {
                    in_amount: quote_params.in_amount,
                    out_amount: self.spec_out_amount(legs, amount) as u64,
                    fee_amount: self.spec_total_fees(legs, amount) as u64,
                    fee_mint: quote_params.output_mint,
                    fee_pct: self.spec_fee_pct(legs, amount) as u64,
                },
            ),
        }
    }

    /// The quote of a trade, or the first reason to refuse it: trading
    /// disabled, an asset unsupported or not held, a stale price feed, a
    /// weight out of its band.
    pub open spec fn spec_quote(&self, quote_params: QuoteParams) -> Result<Quote, QuoteError> {
        if self.fund_state.lp_disabled {
            Err(QuoteError::LiquidityProvisionDisabled)
        } else {
            match self.spec_resolve(quote_params.input_mint@, quote_params.output_mint@) {
                Err(e) => Err(e),
                Ok(legs) => if !all_oracles_live(
                    self.fund_state.composition@,
                    self.token_list.list@,
                ) {
                    Err(QuoteError::OracleStale)
                } else {
                    self.spec_quote_of_legs(legs, quote_params)
                },
            }
        }
    }
}

impl SymmetryTokenSwap {
    /// The raw units at which a holding would have its target weight.
    fn target_amount(&self, holding: Holding, settings: TokenSettings, fund_worth: u64) -> (r: u64)
        requires
            settings.wf(),
        ensures
            r == spec_target_amount(
                holding,
                settings,
                fund_worth as nat,
                self.fund_state.weight_sum as nat,
            ),
    {
        Self::usd_value_to_amount(
            Self::mul_div(holding.target_weight, fund_worth, self.fund_state.weight_sum),
            settings.decimals,
            settings.oracle_price.avg_price,
        )
    }

    /// What `amount` raw units of one token come to in another at one price each.
    fn spot_amount(
        amount: u64,
        from_settings: TokenSettings,
        from_price: u64,
        to_settings: TokenSettings,
        to_price: u64,
    ) -> (r: u64)
        requires
            from_settings.wf(),
            to_settings.wf(),
        ensures
            r == spec_spot_amount(
                amount as nat,
                from_settings.decimals as nat,
                from_price as nat,
                to_settings.decimals as nat,
                to_price as nat,
            ),
    {
        Self::usd_value_to_amount(
            Self::amount_to_usd_value(amount, from_settings.decimals, from_price),
            to_settings.decimals,
            to_price,
        )
    }

    /// Quotes a trade, if the snapshot is well-formed and the trade is in
    /// range: the amount handed out, the fee, and the fee percentage, or the
    /// reason for which the pool refuses the trade.
    pub fn try_quote(&self, quote_params: &QuoteParams) -> (r: Option<Result<Quote, QuoteError>>)
        ensures
            r == (if self.wf() && self.quote_in_range(*quote_params) {
                Some(self.spec_quote(*quote_params))
            } else {
                None
            }),
    {
        if !self.is_wf() {
            return None;
        }
        if self.fund_state.lp_disabled {
            return Some(Err(QuoteError::LiquidityProvisionDisabled));
        }
        let legs = match self.resolve(&quote_params.input_mint, &quote_params.output_mint) {
            Ok(legs) => legs,
            Err(e) => {
                return Some(Err(e));
            },
        };
        if !self.oracles_live() {
            return Some(Err(QuoteError::OracleStale));
        }
        let ghost amount = quote_params.in_amount as nat;
        let fund_worth = match self.fund_worth() {
            Some(worth) => worth,
            None => {
                return None;
            },
        };
        let from_amount: u64 = quote_params.in_amount;
        let from_holding = self.fund_state.composition[legs.from_index];
        let to_holding = self.fund_state.composition[legs.to_index];
        let from_settings = self.token_list.list[legs.from_token_id];
        let to_settings = self.token_list.list[legs.to_token_id];
        assert(from_settings.wf() && to_settings.wf()) by {
            assert(self.fund_state.composition@[legs.from_index as int].token
                == legs.from_token_id);
            assert(self.fund_state.composition@[legs.to_index as int].token == legs.to_token_id);
        }
        let from_price = from_settings.oracle_price;
        let to_price = to_settings.oracle_price;
        let from_target = self.target_amount(from_holding, from_settings, fund_worth);
        let to_target = self.target_amount(to_holding, to_settings, fund_worth);
        let value = match Self::checked_value_of_sold_token(
            from_amount,
            from_settings,
            from_price,
            from_holding.amount,
            from_target,
            self.curve_data.sell_curve(legs.from_token_id),
        ) {
            Some(value) => value,
            None => {
                return None;
            },
        };
        let bought = match Self::checked_amount_of_bought_token(
            value,
            to_settings,
            to_price,
            to_holding.amount,
            to_target,
            self.curve_data.buy_curve(legs.to_token_id),
        ) {
            Some(bought) => bought,
            None => {
                return None;
            },
        };
        let mut amount_without_fees = Self::spot_amount(
            from_amount,
            from_settings,
            from_price.sell_price,
            to_settings,
            to_price.buy_price,
        );
        let fair_amount = Self::spot_amount(
            from_amount,
            from_settings,
            from_price.avg_price,
            to_settings,
            to_price.avg_price,
        );
        if amount_without_fees > to_holding.amount {
            amount_without_fees = to_holding.amount;
        }
        let to_amount: u64 = if bought > amount_without_fees {
            amount_without_fees
        } else {
            bought
        };
        let total_fees: u64 = amount_without_fees - to_amount;
        let split = Self::split_fees(total_fees, self.token_list.fee_recipients);
        let fee_pct = Self::mul_div(total_fees, FEE_PCT_WHOLE, fair_amount);
        let from_worth_before = Self::amount_to_usd_value(
            from_holding.amount,
            from_settings.decimals,
            from_price.avg_price,
        );
        let to_worth_before = Self::amount_to_usd_value(
            to_holding.amount,
            to_settings.decimals,
            to_price.avg_price,
        );
        let safe_from_amount: u128 = (from_amount as u128 * 101) / 100;
        let from_amount_after: u128 = from_holding.amount as u128 + safe_from_amount;
        if from_amount_after > u64::MAX as u128 {
            return None;
        }
        let from_worth_after = Self::amount_to_usd_value(
            from_amount_after as u64,
            from_settings.decimals,
            from_price.avg_price,
        );
        let safe_to_wide: u128 = ((amount_without_fees - split.fund_fee) as u128 * 101) / 100;
        let safe_to_amount: u64 = if safe_to_wide > to_holding.amount as u128 {
            to_holding.amount
        } else {
            safe_to_wide as u64
        };
        let to_worth_after = Self::amount_to_usd_value(
            to_holding.amount - safe_to_amount,
            to_settings.decimals,
            to_price.avg_price,
        );
        let with_both: u128 = fund_worth as u128 + from_worth_after as u128 + to_worth_after as u128;
        if with_both > u64::MAX as u128 {
            return None;
        }
        let mut worth_after: u64 = with_both as u64;
        worth_after = if worth_after < from_worth_before {
            0
        } else {
            worth_after - from_worth_before
        };
        worth_after = if worth_after < to_worth_before {
            0
        } else {
            worth_after - to_worth_before
        };
        let from_new_weight = Self::mul_div(from_worth_after, WEIGHT_MULTIPLIER, worth_after);
        let to_new_weight = Self::mul_div(to_worth_after, WEIGHT_MULTIPLIER, worth_after);
        let removing_dust = legs.from_token_id == 0 && to_holding.target_weight == 0;
        match Self::check_weights(
            from_new_weight,
            to_new_weight,
            from_holding.target_weight,
            to_holding.target_weight,
            self.fund_state.rebalance_threshold,
            self.fund_state.lp_offset_threshold,
            removing_dust,
        ) {
            Err(e) => Some(Err(e)),
            Ok(_) => Some(
                Ok(
                    Quote {
                        in_amount: quote_params.in_amount,
                        out_amount: to_amount,
                        fee_amount: total_fees,
                        fee_mint: quote_params.output_mint,
                        fee_pct,
                    },
                ),
            ),
        }
    }

    /// Quotes a trade: the amount handed out, the fee, and the fee
    /// percentage, or the reason for which the pool refuses the trade.
    pub fn quote(&self, quote_params: &QuoteParams) -> (r: Result<Quote, QuoteError>)
        requires
            self.wf(),
            self.quote_in_range(*quote_params),
        ensures
            r == self.spec_quote(*quote_params),
    {
        let quoted = self.try_quote(quote_params);
        quoted.unwrap()
    }
}

/// A quote never hands out more than the pool holds of the asset, nor more
/// than the oracle's prices alone would give, and its fee is what separates
/// the two amounts.
pub proof fn quote_within_inventory(pool: SymmetryTokenSwap, quote_params: QuoteParams)
    ensures
        pool.spec_quote(quote_params) matches Ok(quote) ==> {
            &&& pool.spec_resolve(quote_params.input_mint@, quote_params.output_mint@) matches Ok(
                legs,
            )
            &&& quote.out_amount <= pool.to_holding(legs).amount
            &&& quote.out_amount + quote.fee_amount == pool.spec_amount_without_fees(
                legs,
                quote_params.in_amount as nat,
            )
            &&& quote.out_amount + quote.fee_amount <= pool.to_holding(legs).amount
        },
{
}

/// A trade that pays in the base asset for an asset whose target weight is
/// zero is never refused for its weights, however much the base asset
/// comes to weigh. The same trade for an asset with a target is refused as
/// soon as the base asset would weigh more than it may.
pub proof fn dust_removal_is_always_allowed(
    pool: SymmetryTokenSwap,
    legs: TradeLegs,
    quote_params: QuoteParams,
)
    requires
        legs.from_token_id == BASE_TOKEN_ID,
    ensures
        pool.to_holding(legs).target_weight == 0 ==> pool.spec_quote_of_legs(
            legs,
            quote_params,
        ) is Ok,
        pool.to_holding(legs).target_weight != 0 && pool.spec_from_new_weight(
            legs,
            quote_params.in_amount as nat,
        ) > max_allowed_weight(
            pool.from_holding(legs).target_weight as nat,
            allowed_offset(
                pool.fund_state.rebalance_threshold as nat,
                pool.fund_state.lp_offset_threshold as nat,
            ),
        ) ==> pool.spec_quote_of_legs(legs, quote_params) == Err::<Quote, QuoteError>(
            QuoteError::SellerWeightExceeded,
        ),
{
    zero_target_has_no_floor(
        allowed_offset(
            pool.fund_state.rebalance_threshold as nat,
            pool.fund_state.lp_offset_threshold as nat,
        ),
    );
}

} // verus!
