//! What the pool hands out, in raw units, for a USD value that it is paid.
use vstd::prelude::*;
use crate::accounts::CurveStep;
use crate::accounts::OraclePrice;
use crate::accounts::TokenPriceData;
use crate::accounts::TokenSettings;
use crate::accounts::BPS_DIVIDER;
use crate::accounts::NUM_OF_POINTS_IN_CURVE_DATA;
use crate::fixed_point::lemma_mul_div_le;
use crate::fixed_point::lemma_mul_div_monotonic;
use crate::fixed_point::lemma_mul_div_of_zero;
use crate::fixed_point::lemma_pow10_fits;
use crate::fixed_point::pow10;
use crate::fixed_point::spec_amount_to_usd_value;
use crate::fixed_point::spec_usd_value_to_amount;
use crate::sell_curve::fee_on;
use crate::token_swap::SymmetryTokenSwap;

verus! {

/// The price in force once a step that lists `listed` is reached at the
/// running price `running`: a buyer's price only ever rises.
pub open spec fn buy_price_at(settings: TokenSettings, running: nat, listed: nat) -> nat {
    if settings.use_curve_data && listed > running {
        listed
    } else {
        running
    }
}

/// What one segment of a purchase takes of the budget and gives in tokens.
pub struct BuySegment {
    /// The USD value spent in the segment.
    pub spent: nat,
    /// The raw units handed out for it, after fees.
    pub bought: nat,
}

/// The value that a segment of `cap` units at `price` takes out of a budget of `left`.
pub open spec fn buy_segment_spent(cap: nat, left: nat, price: nat, settings: TokenSettings) -> nat {
    let full = spec_amount_to_usd_value(cap, settings.decimals as nat, price);
    if full > left {
        left
    } else {
        full
    }
}

/// The units of the curve that such a segment covers: all of it, or, where the
/// budget ends inside it, what the budget's rest buys at `price`.
pub open spec fn buy_segment_amount(cap: nat, left: nat, price: nat, settings: TokenSettings) -> nat {
    let full = spec_amount_to_usd_value(cap, settings.decimals as nat, price);
    if full > left {
        spec_usd_value_to_amount(left, settings.decimals as nat, price)
    } else {
        cap
    }
}

/// The part of a segment's value that is spent once the holding has come down
/// to its target: all of it at or below the target, none while the segment
/// ends above it, and between the two the value of the units below the target.
pub open spec fn buy_value_after_target(
    spent: nat,
    amount: nat,
    held: nat,
    target: nat,
    price: nat,
    settings: TokenSettings,
) -> nat {
    if held <= target {
        spent
    } else if held <= target + amount {
        spec_amount_to_usd_value((target + amount - held) as nat, settings.decimals as nat, price)
    } else {
        0
    }
}

/// One segment of a purchase: `cap` units of the curve at `price`, a budget
/// of `left`, and a holding of `held` that aims at `target`.
pub open spec fn buy_segment(
    cap: nat,
    left: nat,
    held: nat,
    target: nat,
    price: nat,
    settings: TokenSettings,
) -> BuySegment {
    let spent = buy_segment_spent(cap, left, price, settings);
    let amount = buy_segment_amount(cap, left, price, settings);
    let value_after = buy_value_after_target(spent, amount, held, target, price, settings);
    let value_before = (spent - value_after) as nat;
    let fees = fee_on(value_before, settings.token_swap_fee_before_tw_bps as nat) + fee_on(
        value_after,
        settings.token_swap_fee_after_tw_bps as nat,
    );
    BuySegment {
        spent,
        bought: spec_usd_value_to_amount((spent - fees) as nat, settings.decimals as nat, price),
    }
}

/// A holding of `held` after `bought` units have left it, never below zero.
pub open spec fn holding_after(held: nat, bought: nat) -> nat {
    if bought > held {
        0
    } else {
        (held - bought) as nat
    }
}

/// The units bought with a budget of `left` from step `i` of the curve on,
/// when `offset` units of the curve are yet to be skipped, the pool holds
/// `held` and the running price is `price`. Past the last step one more
/// segment, wide enough for twice the budget, takes what is left. Once the
/// budget is spent, nothing more is bought.
pub open spec fn buy_from(
    curve: Seq<CurveStep>,
    i: int,
    offset: nat,
    left: nat,
    held: nat,
    price: nat,
    target: nat,
    settings: TokenSettings,
) -> nat
    decreases curve.len() - i,
{
    if left == 0 {
        0
    } else if i < 0 || i >= curve.len() {
        let cap = spec_usd_value_to_amount(2 * left, settings.decimals as nat, price);
        buy_segment(cap, left, held, target, price, settings).bought
    } else {
        let step = curve[i];
        let p = buy_price_at(settings, price, step.price);
        if step.amount <= offset {
            buy_from(curve, i + 1, (offset - step.amount) as nat, left, held, p, target, settings)
        } else {
            let segment = buy_segment((step.amount - offset) as nat, left, held, target, p, settings);
            segment.bought + buy_from(
                curve,
                i + 1,
                0,
                (left - segment.spent) as nat,
                holding_after(held, segment.bought),
                p,
                target,
                settings,
            )
        }
    }
}

/// The units of the curve that a holding below its target has used up already.
pub open spec fn buy_offset(start: nat, target: nat) -> nat {
    if start < target {
        (target - start) as nat
    } else {
        0
    }
}

/// The raw units that the pool hands out for a USD value of `value`.
pub open spec fn spec_compute_amount_of_bought_token(
    value: nat,
    settings: TokenSettings,
    price: OraclePrice,
    start: nat,
    target: nat,
    curve: Seq<CurveStep>,
) -> nat {
    buy_from(
        curve,
        0,
        buy_offset(start, target),
        value,
        start,
        price.buy_price as nat,
        target,
        settings,
    )
}

/// Whether a segment of a purchase is well defined: the part of its value
/// that is spent once the holding has come down to its target is no more
/// than the whole. It fails only where the units of the segment are worth
/// more than a `u64` holds, and so count for nothing, while the units below
/// the target count for what they are worth.
pub open spec fn buy_segment_defined(
    cap: nat,
    left: nat,
    held: nat,
    target: nat,
    price: nat,
    settings: TokenSettings,
) -> bool {
    buy_value_after_target(
        buy_segment_spent(cap, left, price, settings),
        buy_segment_amount(cap, left, price, settings),
        held,
        target,
        price,
        settings,
    ) <= buy_segment_spent(cap, left, price, settings)
}

/// Whether a purchase is well defined from step `i` of the curve on: every
/// segment that takes part of the budget is, and twice what is left of the
/// budget past the last step fits in a `u64`.
pub open spec fn buy_defined_from(
    curve: Seq<CurveStep>,
    i: int,
    offset: nat,
    left: nat,
    held: nat,
    price: nat,
    target: nat,
    settings: TokenSettings,
) -> bool
    decreases curve.len() - i,
{
    if left == 0 {
        true
    } else if i < 0 || i >= curve.len() {
        2 * left <= u64::MAX
    } else {
        let step = curve[i];
        let p = buy_price_at(settings, price, step.price);
        if step.amount <= offset {
            buy_defined_from(
                curve,
                i + 1,
                (offset - step.amount) as nat,
                left,
                held,
                p,
                target,
                settings,
            )
        } else {
            let cap = (step.amount - offset) as nat;
            let segment = buy_segment(cap, left, held, target, p, settings);
            &&& buy_segment_defined(cap, left, held, target, p, settings)
            &&& buy_defined_from(
                curve,
                i + 1,
                0,
                (left - segment.spent) as nat,
                holding_after(held, segment.bought),
                p,
                target,
                settings,
            )
        }
    }
}

/// The purchases that are computed: those that are well defined along the
/// whole curve.
pub open spec fn buy_defined(
    value: nat,
    settings: TokenSettings,
    price: OraclePrice,
    start: nat,
    target: nat,
    curve: Seq<CurveStep>,
) -> bool {
    buy_defined_from(
        curve,
        0,
        buy_offset(start, target),
        value,
        start,
        price.buy_price as nat,
        target,
        settings,
    )
}

/// Whether every step of the curve from step `i` on, valued at the price in
/// force there, is worth no more than a `u64` holds.
pub open spec fn buy_curve_in_range(
    curve: Seq<CurveStep>,
    i: int,
    price: nat,
    settings: TokenSettings,
) -> bool
    decreases curve.len() - i,
{
    if i < 0 || i >= curve.len() {
        true
    } else {
        let p = buy_price_at(settings, price, curve[i].price);
        &&& (curve[i].amount * p) / pow10(settings.decimals as nat) <= u64::MAX
        &&& buy_curve_in_range(curve, i + 1, p, settings)
    }
}

/// Budgets and curves well within range: twice the budget fits in a `u64`,
/// and so does the worth of every step of the curve. Every purchase within
/// this range is well defined, and in it the units bought are shown to
/// grow with the budget and to stay within what the oracle's price gives.
pub open spec fn buy_in_range(
    value: nat,
    settings: TokenSettings,
    price: OraclePrice,
    curve: Seq<CurveStep>,
) -> bool {
    &&& 2 * value <= u64::MAX
    &&& buy_curve_in_range(curve, 0, price.buy_price as nat, settings)
}

/// What a value buys is worth no more than the value.
pub proof fn lemma_value_of_bought_amount(worth: nat, decimals: nat, price: nat)
    ensures
        (spec_usd_value_to_amount(worth, decimals, price) * price) / pow10(decimals) <= worth,
{
    let d = pow10(decimals);
    crate::fixed_point::lemma_pow10_positive(decimals);
    let a = spec_usd_value_to_amount(worth, decimals, price);
    if price > 0 && a > 0 {
        assert(a == (worth * d) / price);
        assert((((worth * d) / price) * price) / d <= worth) by (nonlinear_arith)
            requires
                price > 0,
                d > 0,
        ;
    } else {
        assert((a * price) / d == 0) by (nonlinear_arith)
            requires
                a == 0 || price == 0,
                d > 0,
        ;
    }
}

/// Within a segment whose worth fits in a `u64`: the segment spends no more
/// than the budget, the part after the target no more than the segment, and
/// the fees no more than what is spent.
pub proof fn lemma_buy_segment_bounds(
    cap: nat,
    left: nat,
    held: nat,
    target: nat,
    price: nat,
    settings: TokenSettings,
)
    requires
        settings.wf(),
        left <= u64::MAX,
        (cap * price) / pow10(settings.decimals as nat) <= u64::MAX,
    ensures
        buy_segment_defined(cap, left, held, target, price, settings),
        buy_segment_spent(cap, left, price, settings) <= left,
        buy_segment_spent(cap, left, price, settings) == 0 ==> buy_segment(
            cap,
            left,
            held,
            target,
            price,
            settings,
        ).bought == 0,
        buy_value_after_target(
            buy_segment_spent(cap, left, price, settings),
            buy_segment_amount(cap, left, price, settings),
            held,
            target,
            price,
            settings,
        ) <= buy_segment_spent(cap, left, price, settings),
        ({
            let spent = buy_segment_spent(cap, left, price, settings);
            let amount = buy_segment_amount(cap, left, price, settings);
            let value_after = buy_value_after_target(spent, amount, held, target, price, settings);
            fee_on((spent - value_after) as nat, settings.token_swap_fee_before_tw_bps as nat)
                + fee_on(value_after, settings.token_swap_fee_after_tw_bps as nat) <= spent
        }),
{
    let dec = settings.decimals as nat;
    let d = pow10(dec);
    lemma_pow10_fits(dec);
    let full = spec_amount_to_usd_value(cap, dec, price);
    let spent = buy_segment_spent(cap, left, price, settings);
    let amount = buy_segment_amount(cap, left, price, settings);
    let value_after = buy_value_after_target(spent, amount, held, target, price, settings);
    assert(full == (cap * price) / d);
    if held > target && held <= target + amount {
        let below = (target + amount - held) as nat;
        if full > left {
            lemma_value_of_bought_amount(left, dec, price);
            lemma_mul_div_monotonic(below, amount, price, d);
        } else {
            lemma_mul_div_monotonic(below, cap, price, d);
        }
    }
    assert(value_after <= spent);
    lemma_mul_div_le(
        (spent - value_after) as nat,
        settings.token_swap_fee_before_tw_bps as nat,
        BPS_DIVIDER as nat,
    );
    lemma_mul_div_le(value_after, settings.token_swap_fee_after_tw_bps as nat, BPS_DIVIDER as nat);
    if spent == 0 {
        lemma_mul_div_of_zero(settings.token_swap_fee_before_tw_bps as nat, BPS_DIVIDER as nat);
        lemma_mul_div_of_zero(settings.token_swap_fee_after_tw_bps as nat, BPS_DIVIDER as nat);
        lemma_mul_div_of_zero(d, price);
    }
}

/// The last, open segment is always in range: what twice the budget buys is
/// worth no more than twice the budget.
pub proof fn lemma_buy_last_segment_in_range(left: nat, price: nat, settings: TokenSettings)
    requires
        settings.wf(),
        2 * left <= u64::MAX,
    ensures
        (spec_usd_value_to_amount(2 * left, settings.decimals as nat, price) * price) / pow10(
            settings.decimals as nat,
        ) <= u64::MAX,
{
    lemma_value_of_bought_amount(2 * left, settings.decimals as nat, price);
}

/// Once the budget is spent, the rest of the curve gives nothing.
pub proof fn lemma_buy_from_nothing(
    curve: Seq<CurveStep>,
    i: int,
    offset: nat,
    held: nat,
    price: nat,
    target: nat,
    settings: TokenSettings,
)
    ensures
        buy_from(curve, i, offset, 0, held, price, target, settings) == 0,
{
}

/// From any point of the curve on, a purchase within range is well defined.
pub proof fn lemma_in_range_is_defined(
    curve: Seq<CurveStep>,
    i: int,
    offset: nat,
    left: nat,
    held: nat,
    price: nat,
    target: nat,
    settings: TokenSettings,
)
    requires
        settings.wf(),
        2 * left <= u64::MAX,
        buy_curve_in_range(curve, i, price, settings),
    ensures
        buy_defined_from(curve, i, offset, left, held, price, target, settings),
    decreases curve.len() - i,
{
    let dec = settings.decimals as nat;
    if left > 0 && 0 <= i < curve.len() {
        let step = curve[i];
        let p = buy_price_at(settings, price, step.price);
        if step.amount <= offset {
            lemma_in_range_is_defined(
                curve,
                i + 1,
                (offset - step.amount) as nat,
                left,
                held,
                p,
                target,
                settings,
            );
        } else {
            let cap = (step.amount - offset) as nat;
            lemma_pow10_fits(dec);
            assert((cap * p) / pow10(dec) <= (step.amount * p) / pow10(dec)) by (nonlinear_arith)
                requires
                    cap <= step.amount,
                    pow10(dec) > 0,
            ;
            lemma_buy_segment_bounds(cap, left, held, target, p, settings);
            let segment = buy_segment(cap, left, held, target, p, settings);
            lemma_in_range_is_defined(
                curve,
                i + 1,
                0,
                (left - segment.spent) as nat,
                holding_after(held, segment.bought),
                p,
                target,
                settings,
            );
        }
    }
}

/// Every purchase within range is well defined.
pub proof fn purchase_in_range_is_defined(
    value: nat,
    settings: TokenSettings,
    price: OraclePrice,
    start: nat,
    target: nat,
    curve: Seq<CurveStep>,
)
    requires
        settings.wf(),
        buy_in_range(value, settings, price, curve),
    ensures
        buy_defined(value, settings, price, start, target, curve),
{
    lemma_in_range_is_defined(
        curve,
        0,
        buy_offset(start, target),
        value,
        start,
        price.buy_price as nat,
        target,
        settings,
    );
}

/// One segment of a purchase, computed; `None` where it is not well defined.
fn buy_one_segment(
    cap: u64,
    left: u64,
    held: u64,
    target: u64,
    price: u64,
    settings: &TokenSettings,
) -> (r: Option<(u64, u64)>)
    requires
        settings.wf(),
    ensures
        r is Some == buy_segment_defined(
            cap as nat,
            left as nat,
            held as nat,
            target as nat,
            price as nat,
            *settings,
        ),
        r matches Some(segment) ==> {
            &&& segment.0 == buy_segment(
                cap as nat,
                left as nat,
                held as nat,
                target as nat,
                price as nat,
                *settings,
            ).spent
            &&& segment.1 == buy_segment(
                cap as nat,
                left as nat,
                held as nat,
                target as nat,
                price as nat,
                *settings,
            ).bought
            &&& segment.0 <= left
        },
{
    let mut amount_in_interval: u64 = cap;
    let mut value_in_interval: u64 = SymmetryTokenSwap::amount_to_usd_value(
        cap,
        settings.decimals,
        price,
    );
    if value_in_interval > left {
        value_in_interval = left;
        amount_in_interval = SymmetryTokenSwap::usd_value_to_amount(left, settings.decimals, price);
    }
    let value_after: u64 = if held <= target {
        value_in_interval
    } else if held - target <= amount_in_interval {
        SymmetryTokenSwap::amount_to_usd_value(
            amount_in_interval - (held - target),
            settings.decimals,
            price,
        )
    } else {
        0
    };
    if value_after > value_in_interval {
        return None;
    }
    let value_before: u64 = value_in_interval - value_after;
    let fee_before = SymmetryTokenSwap::mul_div(
        value_before,
        settings.token_swap_fee_before_tw_bps as u64,
        BPS_DIVIDER,
    );
    let fee_after = SymmetryTokenSwap::mul_div(
        value_after,
        settings.token_swap_fee_after_tw_bps as u64,
        BPS_DIVIDER,
    );
    proof {
        lemma_mul_div_le(
            value_before as nat,
            settings.token_swap_fee_before_tw_bps as nat,
            BPS_DIVIDER as nat,
        );
        lemma_mul_div_le(
            value_after as nat,
            settings.token_swap_fee_after_tw_bps as nat,
            BPS_DIVIDER as nat,
        );
    }
    let fees: u64 = fee_before + fee_after;
    let amount_bought = SymmetryTokenSwap::usd_value_to_amount(
        value_in_interval - fees,
        settings.decimals,
        price,
    );
    Some((value_in_interval, amount_bought))
}

impl SymmetryTokenSwap {
    /// The raw units that the pool hands out for a USD value of `value` of a
    /// token of which it holds `start_amount` and aims at `target_amount`;
    /// `None` where the settings are not valid, the purchase is not well
    /// defined, or the units do not fit in a `u64`.
    pub fn checked_amount_of_bought_token(
        value: u64,
        token_settings: TokenSettings,
        price: OraclePrice,
        start_amount: u64,
        target_amount: u64,
        curve_data: TokenPriceData,
    ) -> (r: Option<u64>)
        ensures
            r == (if token_settings.wf() && buy_defined(
                value as nat,
                token_settings,
                price,
                start_amount as nat,
                target_amount as nat,
                curve_data@,
            ) && spec_compute_amount_of_bought_token(
                value as nat,
                token_settings,
                price,
                start_amount as nat,
                target_amount as nat,
                curve_data@,
            ) <= u64::MAX {
                Some(
                    spec_compute_amount_of_bought_token(
                        value as nat,
                        token_settings,
                        price,
                        start_amount as nat,
                        target_amount as nat,
                        curve_data@,
                    ) as u64,
                )
            } else {
                None
            }),
    {
        if !token_settings.is_wf() {
            return None;
        }
        if value == 0 {
            return Some(0);
        }
        let ghost total = spec_compute_amount_of_bought_token(
            value as nat,
            token_settings,
            price,
            start_amount as nat,
            target_amount as nat,
            curve_data@,
        );
        let ghost defined = buy_defined(
            value as nat,
            token_settings,
            price,
            start_amount as nat,
            target_amount as nat,
            curve_data@,
        );
        let mut current_amount: u64 = start_amount;
        let mut curve_offset: u64 = if start_amount < target_amount {
            target_amount - start_amount
        } else {
            0
        };
        let mut current_output_amount: u64 = 0;
        let mut value_left: u64 = value;
        let mut current_price: u64 = price.buy_price;
        let mut step: usize = 0;
        while step < NUM_OF_POINTS_IN_CURVE_DATA
            invariant
                step <= NUM_OF_POINTS_IN_CURVE_DATA,
                token_settings.wf(),
                value_left > 0,
                total == spec_compute_amount_of_bought_token(
                    value as nat,
                    token_settings,
                    price,
                    start_amount as nat,
                    target_amount as nat,
                    curve_data@,
                ),
                defined == buy_defined(
                    value as nat,
                    token_settings,
                    price,
                    start_amount as nat,
                    target_amount as nat,
                    curve_data@,
                ),
                defined == buy_defined_from(
                    curve_data@,
                    step as int,
                    curve_offset as nat,
                    value_left as nat,
                    current_amount as nat,
                    current_price as nat,
                    target_amount as nat,
                    token_settings,
                ),
                current_output_amount + buy_from(
                    curve_data@,
                    step as int,
                    curve_offset as nat,
                    value_left as nat,
                    current_amount as nat,
                    current_price as nat,
                    target_amount as nat,
                    token_settings,
                ) == total,
            decreases NUM_OF_POINTS_IN_CURVE_DATA - step,
        {
            let step_amount: u64 = curve_data.amount[step];
            if token_settings.use_curve_data && curve_data.price[step] > current_price {
                current_price = curve_data.price[step];
            }
            if step_amount <= curve_offset {
                curve_offset = curve_offset - step_amount;
            } else {
                let cap: u64 = step_amount - curve_offset;
                curve_offset = 0;
                let (spent, amount_bought) = match buy_one_segment(
                    cap,
                    value_left,
                    current_amount,
                    target_amount,
                    current_price,
                    &token_settings,
                ) {
                    Some(segment) => segment,
                    None => {
                        return None;
                    },
                };
                let sum = current_output_amount.checked_add(amount_bought);
                if sum.is_none() {
                    return None;
                }
                current_output_amount = sum.unwrap();
                value_left = value_left - spent;
                if amount_bought > current_amount {
                    current_amount = 0;
                } else {
                    current_amount = current_amount - amount_bought;
                }
                if value_left == 0 {
                    proof {
                        lemma_buy_from_nothing(
                            curve_data@,
                            step as int + 1,
                            0,
                            current_amount as nat,
                            current_price as nat,
                            target_amount as nat,
                            token_settings,
                        );
                        assert(buy_defined_from(
                            curve_data@,
                            step as int + 1,
                            0,
                            0,
                            current_amount as nat,
                            current_price as nat,
                            target_amount as nat,
                            token_settings,
                        ));
                    }
                    return Some(current_output_amount);
                }
            }
            step = step + 1;
        }
        if value_left > u64::MAX / 2 {
            return None;
        }
        let cap = SymmetryTokenSwap::usd_value_to_amount(
            value_left * 2,
            token_settings.decimals,
            current_price,
        );
        proof {
            lemma_buy_last_segment_in_range(
                value_left as nat,
                current_price as nat,
                token_settings,
            );
            lemma_buy_segment_bounds(
                cap as nat,
                value_left as nat,
                current_amount as nat,
                target_amount as nat,
                current_price as nat,
                token_settings,
            );
        }
        match buy_one_segment(
            cap,
            value_left,
            current_amount,
            target_amount,
            current_price,
            &token_settings,
        ) {
            Some(segment) => current_output_amount.checked_add(segment.1),
            None => None,
        }
    }

    /// The raw units that the pool hands out for a USD value of `value` of a
    /// token of which it holds `start_amount` and aims at `target_amount`.
    pub fn compute_amount_of_bought_token(
        value: u64,
        token_settings: TokenSettings,
        price: OraclePrice,
        start_amount: u64,
        target_amount: u64,
        curve_data: TokenPriceData,
    ) -> (r: u64)
        requires
            token_settings.wf(),
            buy_defined(
                value as nat,
                token_settings,
                price,
                start_amount as nat,
                target_amount as nat,
                curve_data@,
            ),
            spec_compute_amount_of_bought_token(
                value as nat,
                token_settings,
                price,
                start_amount as nat,
                target_amount as nat,
                curve_data@,
            ) <= u64::MAX,
        ensures
            r == spec_compute_amount_of_bought_token(
                value as nat,
                token_settings,
                price,
                start_amount as nat,
                target_amount as nat,
                curve_data@,
            ),
    {
        let amount = Self::checked_amount_of_bought_token(
            value,
            token_settings,
            price,
            start_amount,
            target_amount,
            curve_data,
        );
        amount.unwrap()
    }
}

} // verus!
