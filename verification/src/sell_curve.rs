//! What the pool pays, in USD value net of fees, for an amount of a token that it takes in.
use vstd::prelude::*;
use crate::accounts::CurveStep;
use crate::accounts::OraclePrice;
use crate::accounts::TokenPriceData;
use crate::accounts::TokenSettings;
use crate::accounts::BPS_DIVIDER;
use crate::accounts::NUM_OF_POINTS_IN_CURVE_DATA;
use crate::fixed_point::lemma_mul_div_le;
use crate::fixed_point::lemma_mul_div_of_zero;
use crate::fixed_point::spec_amount_to_usd_value;
use crate::fixed_point::spec_mul_div;
use crate::token_swap::SymmetryTokenSwap;

verus! {

/// The fee on `value` at `bps` basis points.
pub open spec fn fee_on(value: nat, bps: nat) -> nat {
    spec_mul_div(value, bps, BPS_DIVIDER as nat)
}

/// The price in force once a step that lists `listed` is reached at the
/// running price `running`: a seller's price only ever falls.
pub open spec fn sell_price_at(settings: TokenSettings, running: nat, listed: nat) -> nat {
    if settings.use_curve_data && listed < running {
        listed
    } else {
        running
    }
}

/// Of `take` units added to a holding of `held`, those that still leave the
/// holding at or below `target`.
pub open spec fn amount_before_target(take: nat, held: nat, target: nat) -> nat {
    if held >= target {
        0
    } else if held + take >= target {
        (target - held) as nat
    } else {
        take
    }
}

/// The value, net of fees, of `take` units sold at `price` into a holding of
/// `held`: the units up to the target pay the first fee tier, the rest the second.
pub open spec fn sell_segment_value(
    take: nat,
    held: nat,
    target: nat,
    price: nat,
    settings: TokenSettings,
) -> nat {
    let before = amount_before_target(take, held, target);
    let after = (take - before) as nat;
    let value_before = spec_amount_to_usd_value(before, settings.decimals as nat, price);
    let value_after = spec_amount_to_usd_value(after, settings.decimals as nat, price);
    let fees = fee_on(value_before, settings.token_swap_fee_before_tw_bps as nat) + fee_on(
        value_after,
        settings.token_swap_fee_after_tw_bps as nat,
    );
    (value_before + value_after - fees) as nat
}

/// The value of selling `left` units from step `i` of the curve on, when
/// `offset` units of the curve are yet to be skipped, the pool holds `held`
/// and the running price is `price`. Past the last step one more segment
/// takes whatever is left at the running price.
pub open spec fn sell_from(
    curve: Seq<CurveStep>,
    i: int,
    offset: nat,
    left: nat,
    held: nat,
    price: nat,
    target: nat,
    settings: TokenSettings,
) -> nat
    decreases curve.len() - i,
{
    if i < 0 || i >= curve.len() {
        sell_segment_value(left, held, target, price, settings)
    } else {
        let step = curve[i];
        let p = sell_price_at(settings, price, step.price);
        if step.amount <= offset {
            sell_from(curve, i + 1, (offset - step.amount) as nat, left, held, p, target, settings)
        } else {
            let room = (step.amount - offset) as nat;
            let take = if room > left {
                left
            } else {
                room
            };
            sell_segment_value(take, held, target, p, settings) + sell_from(
                curve,
                i + 1,
                0,
                (left - take) as nat,
                held + take,
                p,
                target,
                settings,
            )
        }
    }
}

/// The units of the curve that a holding above its target has used up already.
pub open spec fn sell_offset(start: nat, target: nat) -> nat {
    if start > target {
        (start - target) as nat
    } else {
        0
    }
}

/// The USD value, net of fees, that the pool pays for `amount` raw units.
pub open spec fn spec_compute_value_of_sold_token(
    amount: nat,
    settings: TokenSettings,
    price: OraclePrice,
    start: nat,
    target: nat,
    curve: Seq<CurveStep>,
) -> nat {
    sell_from(
        curve,
        0,
        sell_offset(start, target),
        amount,
        start,
        price.sell_price as nat,
        target,
        settings,
    )
}

/// Selling nothing is worth nothing.
pub proof fn lemma_sell_segment_of_nothing(
    held: nat,
    target: nat,
    price: nat,
    settings: TokenSettings,
)
    ensures
        sell_segment_value(0, held, target, price, settings) == 0,
{
    let d = crate::fixed_point::pow10(settings.decimals as nat);
    lemma_mul_div_of_zero(price, d);
    lemma_mul_div_of_zero(settings.token_swap_fee_before_tw_bps as nat, BPS_DIVIDER as nat);
    lemma_mul_div_of_zero(settings.token_swap_fee_after_tw_bps as nat, BPS_DIVIDER as nat);
}

/// Once nothing is left to sell, the rest of the curve adds nothing.
pub proof fn lemma_sell_from_nothing(
    curve: Seq<CurveStep>,
    i: int,
    offset: nat,
    held: nat,
    price: nat,
    target: nat,
    settings: TokenSettings,
)
    ensures
        sell_from(curve, i, offset, 0, held, price, target, settings) == 0,
    decreases curve.len() - i,
{
    if i < 0 || i >= curve.len() {
        lemma_sell_segment_of_nothing(held, target, price, settings);
    } else {
        let step = curve[i];
        let p = sell_price_at(settings, price, step.price);
        if step.amount <= offset {
            lemma_sell_from_nothing(
                curve,
                i + 1,
                (offset - step.amount) as nat,
                held,
                p,
                target,
                settings,
            );
        } else {
            lemma_sell_segment_of_nothing(held, target, p, settings);
            lemma_sell_from_nothing(curve, i + 1, 0, held, p, target, settings);
        }
    }
}

/// What is left of `value` once the fee at `bps` basis points is taken.
pub open spec fn net_of_fee(value: nat, bps: nat) -> nat {
    (value - fee_on(value, bps)) as nat
}

/// Where the curve has a single step that ends exactly at the target, a sale
/// of that step pays the first fee tier on the whole amount, and a sale of
/// one unit more pays the first tier on the step and the second on the unit.
pub proof fn sale_across_the_target(
    threshold: nat,
    listed: nat,
    settings: TokenSettings,
    price: OraclePrice,
    start: nat,
)
    requires
        settings.wf(),
        threshold > 0,
    ensures
        ({
            let curve = seq![CurveStep { amount: threshold, price: listed }];
            let p = sell_price_at(settings, price.sell_price as nat, listed);
            let decimals = settings.decimals as nat;
            let first = net_of_fee(
                spec_amount_to_usd_value(threshold, decimals, p),
                settings.token_swap_fee_before_tw_bps as nat,
            );
            let second = net_of_fee(
                spec_amount_to_usd_value(1, decimals, p),
                settings.token_swap_fee_after_tw_bps as nat,
            );
            &&& spec_compute_value_of_sold_token(
                threshold,
                settings,
                price,
                start,
                start + threshold,
                curve,
            ) == first
            &&& spec_compute_value_of_sold_token(
                threshold + 1,
                settings,
                price,
                start,
                start + threshold,
                curve,
            ) == first + second
        }),
{
    let curve = seq![CurveStep { amount: threshold, price: listed }];
    let p = sell_price_at(settings, price.sell_price as nat, listed);
    let target = start + threshold;
    let d = crate::fixed_point::pow10(settings.decimals as nat);
    reveal_with_fuel(sell_from, 3);
    assert(curve[0] == CurveStep { amount: threshold, price: listed });
    lemma_mul_div_of_zero(p, d);
    lemma_mul_div_of_zero(settings.token_swap_fee_before_tw_bps as nat, BPS_DIVIDER as nat);
    lemma_mul_div_of_zero(settings.token_swap_fee_after_tw_bps as nat, BPS_DIVIDER as nat);
    lemma_mul_div_le(
        spec_amount_to_usd_value(threshold, settings.decimals as nat, p),
        settings.token_swap_fee_before_tw_bps as nat,
        BPS_DIVIDER as nat,
    );
    lemma_mul_div_le(
        spec_amount_to_usd_value(1, settings.decimals as nat, p),
        settings.token_swap_fee_after_tw_bps as nat,
        BPS_DIVIDER as nat,
    );
    assert(sell_segment_value(0, target, target, p, settings) == 0) by {
        lemma_sell_segment_of_nothing(target, target, p, settings);
    }
}

/// Where the holding stands at its target and the curve has a single step,
/// a sale of that step is priced as one stretch at the second fee tier, and
/// a sale of one unit more prices the unit by itself.
pub proof fn sale_across_the_curve_point(
    threshold: nat,
    listed: nat,
    settings: TokenSettings,
    price: OraclePrice,
    start: nat,
)
    requires
        settings.wf(),
        threshold > 0,
    ensures
        ({
            let curve = seq![CurveStep { amount: threshold, price: listed }];
            let p = sell_price_at(settings, price.sell_price as nat, listed);
            let decimals = settings.decimals as nat;
            let fee = settings.token_swap_fee_after_tw_bps as nat;
            &&& spec_compute_value_of_sold_token(threshold, settings, price, start, start, curve)
                == net_of_fee(spec_amount_to_usd_value(threshold, decimals, p), fee)
            &&& spec_compute_value_of_sold_token(
                threshold + 1,
                settings,
                price,
                start,
                start,
                curve,
            ) == net_of_fee(spec_amount_to_usd_value(threshold, decimals, p), fee) + net_of_fee(
                spec_amount_to_usd_value(1, decimals, p),
                fee,
            )
        }),
{
    let curve = seq![CurveStep { amount: threshold, price: listed }];
    let p = sell_price_at(settings, price.sell_price as nat, listed);
    let d = crate::fixed_point::pow10(settings.decimals as nat);
    reveal_with_fuel(sell_from, 3);
    assert(curve[0] == CurveStep { amount: threshold, price: listed });
    lemma_mul_div_of_zero(p, d);
    lemma_mul_div_of_zero(settings.token_swap_fee_before_tw_bps as nat, BPS_DIVIDER as nat);
    lemma_mul_div_of_zero(settings.token_swap_fee_after_tw_bps as nat, BPS_DIVIDER as nat);
    lemma_mul_div_le(
        spec_amount_to_usd_value(threshold, settings.decimals as nat, p),
        settings.token_swap_fee_after_tw_bps as nat,
        BPS_DIVIDER as nat,
    );
    lemma_mul_div_le(
        spec_amount_to_usd_value(1, settings.decimals as nat, p),
        settings.token_swap_fee_after_tw_bps as nat,
        BPS_DIVIDER as nat,
    );
    assert(sell_segment_value(0, start + threshold, start, p, settings) == 0) by {
        lemma_sell_segment_of_nothing(start + threshold, start, p, settings);
    }
}

/// What one segment pays, with the holding's distance below its target
/// (`room`, zero at or above it) standing for the holding itself.
fn sell_segment(take: u64, room: u64, price: u64, settings: &TokenSettings) -> (r: (u64, u64))
    requires
        settings.wf(),
    ensures
        forall|held: nat, target: nat|
            room == (if held < target {
                target - held
            } else {
                0
            }) ==> {
                &&& r.0 + r.1 == #[trigger] sell_segment_value(
                    take as nat,
                    held,
                    target,
                    price as nat,
                    *settings,
                )
                &&& r.0 + r.1 <= 2 * u64::MAX
            },
{
    let before: u64 = if take < room {
        take
    } else {
        room
    };
    let after: u64 = take - before;
    let value_before = SymmetryTokenSwap::amount_to_usd_value(before, settings.decimals, price);
    let value_after = SymmetryTokenSwap::amount_to_usd_value(after, settings.decimals, price);
    let fee_before = SymmetryTokenSwap::mul_div(
        value_before,
        settings.token_swap_fee_before_tw_bps as u64,
        BPS_DIVIDER,
    );
    let fee_after = SymmetryTokenSwap::mul_div(
        value_after,
        settings.token_swap_fee_after_tw_bps as u64,
        BPS_DIVIDER,
    );
    proof {
        lemma_mul_div_le(
            value_before as nat,
            settings.token_swap_fee_before_tw_bps as nat,
            BPS_DIVIDER as nat,
        );
        lemma_mul_div_le(
            value_after as nat,
            settings.token_swap_fee_after_tw_bps as nat,
            BPS_DIVIDER as nat,
        );
        assert forall|held: nat, target: nat|
            room == (if held < target {
                target - held
            } else {
                0
            }) implies before == amount_before_target(take as nat, held, target) by {}
    }
    (value_before - fee_before, value_after - fee_after)
}

impl SymmetryTokenSwap {
    /// The USD value, net of fees, that the pool pays for `amount` raw units
    /// of a token of which it holds `start_amount` and aims at
    /// `target_amount`; `None` where the settings are not valid or that
    /// value does not fit in a `u64`.
    pub fn checked_value_of_sold_token(
        amount: u64,
        token_settings: TokenSettings,
        price: OraclePrice,
        start_amount: u64,
        target_amount: u64,
        curve_data: TokenPriceData,
    ) -> (r: Option<u64>)
        ensures
            r == (if token_settings.wf() && spec_compute_value_of_sold_token(
                amount as nat,
                token_settings,
                price,
                start_amount as nat,
                target_amount as nat,
                curve_data@,
            ) <= u64::MAX {
                Some(
                    spec_compute_value_of_sold_token(
                        amount as nat,
                        token_settings,
                        price,
                        start_amount as nat,
                        target_amount as nat,
                        curve_data@,
                    ) as u64,
                )
            } else {
                None
            }),
    {
        if !token_settings.is_wf() {
            return None;
        }
        let ghost total = spec_compute_value_of_sold_token(
            amount as nat,
            token_settings,
            price,
            start_amount as nat,
            target_amount as nat,
            curve_data@,
        );
        let ghost target = target_amount as nat;
        let ghost mut held: nat = start_amount as nat;
        let mut room: u64 = if start_amount < target_amount {
            target_amount - start_amount
        } else {
            0
        };
        let mut curve_offset: u64 = if start_amount > target_amount {
            start_amount - target_amount
        } else {
            0
        };
        let mut current_output_value: u64 = 0;
        let mut amount_left: u64 = amount;
        let mut current_price: u64 = price.sell_price;
        let mut step: usize = 0;
        while step < NUM_OF_POINTS_IN_CURVE_DATA
            invariant
                step <= NUM_OF_POINTS_IN_CURVE_DATA,
                token_settings.wf(),
                target == target_amount as nat,
                total == spec_compute_value_of_sold_token(
                    amount as nat,
                    token_settings,
                    price,
                    start_amount as nat,
                    target_amount as nat,
                    curve_data@,
                ),
                room == (if held < target {
                    target - held
                } else {
                    0
                }),
                current_output_value + sell_from(
                    curve_data@,
                    step as int,
                    curve_offset as nat,
                    amount_left as nat,
                    held,
                    current_price as nat,
                    target,
                    token_settings,
                ) == total,
            decreases NUM_OF_POINTS_IN_CURVE_DATA - step,
        {
            let step_amount: u64 = curve_data.amount[step];
            if token_settings.use_curve_data && curve_data.price[step] < current_price {
                current_price = curve_data.price[step];
            }
            if step_amount <= curve_offset {
                curve_offset = curve_offset - step_amount;
            } else {
                let mut amount_in_interval: u64 = step_amount - curve_offset;
                curve_offset = 0;
                if amount_in_interval > amount_left {
                    amount_in_interval = amount_left;
                }
                let (net_before, net_after) = sell_segment(
                    amount_in_interval,
                    room,
                    current_price,
                    &token_settings,
                );
                let ghost segment = sell_segment_value(
                    amount_in_interval as nat,
                    held,
                    target,
                    current_price as nat,
                    token_settings,
                );
                assert(net_before + net_after == segment);
                let sum = current_output_value.checked_add(net_before);
                if sum.is_none() {
                    return None;
                }
                let sum = sum.unwrap().checked_add(net_after);
                if sum.is_none() {
                    return None;
                }
                current_output_value = sum.unwrap();
                amount_left = amount_left - amount_in_interval;
                room = if amount_in_interval < room {
                    room - amount_in_interval
                } else {
                    0
                };
                proof {
                    held = held + amount_in_interval as nat;
                }
                if amount_left == 0 {
                    proof {
                        lemma_sell_from_nothing(
                            curve_data@,
                            step as int + 1,
                            0,
                            held,
                            current_price as nat,
                            target,
                            token_settings,
                        );
                    }
                    return Some(current_output_value);
                }
            }
            step = step + 1;
        }
        let (net_before, net_after) = sell_segment(
            amount_left,
            room,
            current_price,
            &token_settings,
        );
        assert(net_before + net_after == sell_segment_value(
            amount_left as nat,
            held,
            target,
            current_price as nat,
            token_settings,
        ));
        let sum = current_output_value.checked_add(net_before);
        if sum.is_none() {
            return None;
        }
        let sum = sum.unwrap().checked_add(net_after);
        if sum.is_none() {
            return None;
        }
        sum
    }

    /// The USD value, net of fees, that the pool pays for `amount` raw units
    /// of a token of which it holds `start_amount` and aims at `target_amount`.
    pub fn compute_value_of_sold_token(
        amount: u64,
        token_settings: TokenSettings,
        price: OraclePrice,
        start_amount: u64,
        target_amount: u64,
        curve_data: TokenPriceData,
    ) -> (r: u64)
        requires
            token_settings.wf(),
            spec_compute_value_of_sold_token(
                amount as nat,
                token_settings,
                price,
                start_amount as nat,
                target_amount as nat,
                curve_data@,
            ) <= u64::MAX,
        ensures
            r == spec_compute_value_of_sold_token(
                amount as nat,
                token_settings,
                price,
                start_amount as nat,
                target_amount as nat,
                curve_data@,
            ),
    {
        let value = Self::checked_value_of_sold_token(
            amount,
            token_settings,
            price,
            start_amount,
            target_amount,
            curve_data,
        );
        value.unwrap()
    }
}

} // verus!
