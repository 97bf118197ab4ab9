//! The curve never improves on the oracle: a sale pays no more than the
//! oracle's price would, and a purchase gives no more.
use vstd::prelude::*;
use crate::accounts::CurveStep;
use crate::accounts::OraclePrice;
use crate::accounts::TokenSettings;
use crate::accounts::BPS_DIVIDER;
use crate::buy_curve::buy_curve_in_range;
use crate::buy_curve::buy_from;
use crate::buy_curve::buy_in_range;
use crate::buy_curve::buy_offset;
use crate::buy_curve::buy_price_at;
use crate::buy_curve::buy_segment;
use crate::buy_curve::buy_segment_amount;
use crate::buy_curve::buy_segment_spent;
use crate::buy_curve::buy_value_after_target;
use crate::buy_curve::holding_after;
use crate::buy_curve::lemma_buy_last_segment_in_range;
use crate::buy_curve::lemma_buy_segment_bounds;
use crate::buy_curve::spec_compute_amount_of_bought_token;
use crate::fixed_point::lemma_mul_div_le;
use crate::fixed_point::lemma_mul_div_monotonic;
use crate::fixed_point::lemma_pow10_fits;
use crate::fixed_point::pow10;
use crate::fixed_point::spec_amount_to_usd_value;
use crate::fixed_point::spec_usd_value_to_amount;
use crate::sell_curve::amount_before_target;
use crate::sell_curve::fee_on;
use crate::sell_curve::sell_from;
use crate::sell_curve::sell_offset;
use crate::sell_curve::sell_price_at;
use crate::sell_curve::sell_segment_value;
use crate::sell_curve::spec_compute_value_of_sold_token;

verus! {

/// One segment of a sale pays no more than its units are worth at its price.
pub proof fn lemma_sell_segment_bounded(
    take: nat,
    held: nat,
    target: nat,
    price: nat,
    settings: TokenSettings,
)
    requires
        settings.wf(),
        (take * price) / pow10(settings.decimals as nat) <= u64::MAX,
    ensures
        sell_segment_value(take, held, target, price, settings) <= (take * price) / pow10(
            settings.decimals as nat,
        ),
{
    let dec = settings.decimals as nat;
    let d = pow10(dec);
    lemma_pow10_fits(dec);
    let before = amount_before_target(take, held, target);
    let after = (take - before) as nat;
    assert((before * price) / d + (after * price) / d <= (take * price) / d) by (nonlinear_arith)
        requires
            before + after == take,
            d > 0,
    ;
    lemma_mul_div_monotonic(before, before, price, d);
    lemma_mul_div_monotonic(after, after, price, d);
    lemma_mul_div_le(
        spec_amount_to_usd_value(before, dec, price),
        settings.token_swap_fee_before_tw_bps as nat,
        BPS_DIVIDER as nat,
    );
    lemma_mul_div_le(
        spec_amount_to_usd_value(after, dec, price),
        settings.token_swap_fee_after_tw_bps as nat,
        BPS_DIVIDER as nat,
    );
}

/// From any point of the curve on, a sale pays no more than what is left
/// to sell is worth at the running price.
pub proof fn lemma_sell_from_bounded(
    curve: Seq<CurveStep>,
    i: int,
    offset: nat,
    left: nat,
    held: nat,
    price: nat,
    target: nat,
    settings: TokenSettings,
)
    requires
        settings.wf(),
        (left * price) / pow10(settings.decimals as nat) <= u64::MAX,
    ensures
        sell_from(curve, i, offset, left, held, price, target, settings) <= (left * price) / pow10(
            settings.decimals as nat,
        ),
    decreases curve.len() - i,
{
    let dec = settings.decimals as nat;
    let d = pow10(dec);
    lemma_pow10_fits(dec);
    if i < 0 || i >= curve.len() {
        lemma_sell_segment_bounded(left, held, target, price, settings);
    } else {
        let step = curve[i];
        let p = sell_price_at(settings, price, step.price);
        assert((left * p) / d <= (left * price) / d) by (nonlinear_arith)
            requires
                p <= price,
                d > 0,
        ;
        if step.amount <= offset {
            lemma_sell_from_bounded(
                curve,
                i + 1,
                (offset - step.amount) as nat,
                left,
                held,
                p,
                target,
                settings,
            );
        } else {
            let room = (step.amount - offset) as nat;
            let take = if room > left {
                left
            } else {
                room
            };
            let rest = (left - take) as nat;
            assert((take * p) / d + (rest * p) / d <= (left * p) / d) by (nonlinear_arith)
                requires
                    take + rest == left,
                    d > 0,
            ;
            lemma_sell_segment_bounded(take, held, target, p, settings);
            lemma_sell_from_bounded(curve, i + 1, 0, rest, held + take, p, target, settings);
        }
    }
}

/// A sale never pays more than the amount is worth at the oracle's price,
/// where that worth fits in a `u64`: the curve only lowers the price, and
/// the fees only take.
pub proof fn sale_value_within_oracle_price(
    amount: nat,
    settings: TokenSettings,
    price: OraclePrice,
    start: nat,
    target: nat,
    curve: Seq<CurveStep>,
)
    requires
        settings.wf(),
        (amount * price.sell_price as nat) / pow10(settings.decimals as nat) <= u64::MAX,
    ensures
        spec_compute_value_of_sold_token(amount, settings, price, start, target, curve)
            <= spec_amount_to_usd_value(
            amount,
            settings.decimals as nat,
            price.sell_price as nat,
        ),
        spec_amount_to_usd_value(amount, settings.decimals as nat, price.sell_price as nat) == (
        amount * price.sell_price as nat) / pow10(settings.decimals as nat),
{
    lemma_pow10_fits(settings.decimals as nat);
    lemma_mul_div_monotonic(
        amount,
        amount,
        price.sell_price as nat,
        pow10(settings.decimals as nat),
    );
    lemma_sell_from_bounded(
        curve,
        0,
        sell_offset(start, target),
        amount,
        start,
        price.sell_price as nat,
        target,
        settings,
    );
}

/// One segment of a purchase gives no more than what it spends buys at its price.
pub proof fn lemma_buy_segment_bounded(
    cap: nat,
    left: nat,
    held: nat,
    target: nat,
    price: nat,
    settings: TokenSettings,
)
    requires
        settings.wf(),
        left <= u64::MAX,
        price > 0,
        (cap * price) / pow10(settings.decimals as nat) <= u64::MAX,
    ensures
        buy_segment(cap, left, held, target, price, settings).spent <= left,
        buy_segment(cap, left, held, target, price, settings).bought <= (buy_segment(
            cap,
            left,
            held,
            target,
            price,
            settings,
        ).spent * pow10(settings.decimals as nat)) / price,
{
    let dec = settings.decimals as nat;
    let d = pow10(dec);
    lemma_buy_segment_bounds(cap, left, held, target, price, settings);
    let spent = buy_segment_spent(cap, left, price, settings);
    let amount = buy_segment_amount(cap, left, price, settings);
    let value_after = buy_value_after_target(spent, amount, held, target, price, settings);
    let fees = fee_on((spent - value_after) as nat, settings.token_swap_fee_before_tw_bps as nat)
        + fee_on(value_after, settings.token_swap_fee_after_tw_bps as nat);
    let net = (spent - fees) as nat;
    assert(buy_segment(cap, left, held, target, price, settings).bought
        == spec_usd_value_to_amount(net, dec, price));
    assert((net * d) / price <= (spent * d) / price) by (nonlinear_arith)
        requires
            net <= spent,
            price > 0,
            d >= 0,
    ;
}

/// From any point of the curve on, a purchase gives no more than what is
/// left of the budget buys at the running price.
pub proof fn lemma_buy_from_bounded(
    curve: Seq<CurveStep>,
    i: int,
    offset: nat,
    left: nat,
    held: nat,
    price: nat,
    target: nat,
    settings: TokenSettings,
)
    requires
        settings.wf(),
        2 * left <= u64::MAX,
        price > 0,
        buy_curve_in_range(curve, i, price, settings),
    ensures
        buy_from(curve, i, offset, left, held, price, target, settings) <= (left * pow10(
            settings.decimals as nat,
        )) / price,
    decreases curve.len() - i,
{
    let dec = settings.decimals as nat;
    let d = pow10(dec);
    lemma_pow10_fits(dec);
    if i < 0 || i >= curve.len() {
        let cap = spec_usd_value_to_amount(2 * left, dec, price);
        lemma_buy_last_segment_in_range(left, price, settings);
        lemma_buy_segment_bounded(cap, left, held, target, price, settings);
        let segment = buy_segment(cap, left, held, target, price, settings);
        assert((segment.spent * d) / price <= (left * d) / price) by (nonlinear_arith)
            requires
                segment.spent <= left,
                price > 0,
        ;
    } else {
        let step = curve[i];
        let p = buy_price_at(settings, price, step.price);
        assert((left * d) / p <= (left * d) / price) by (nonlinear_arith)
            requires
                0 < price <= p,
        ;
        if step.amount <= offset {
            lemma_buy_from_bounded(
                curve,
                i + 1,
                (offset - step.amount) as nat,
                left,
                held,
                p,
                target,
                settings,
            );
        } else {
            let cap = (step.amount - offset) as nat;
            assert((cap * p) / d <= (step.amount * p) / d) by (nonlinear_arith)
                requires
                    cap <= step.amount,
                    d > 0,
            ;
            lemma_buy_segment_bounded(cap, left, held, target, p, settings);
            let segment = buy_segment(cap, left, held, target, p, settings);
            let rest = (left - segment.spent) as nat;
            assert((segment.spent * d) / p + (rest * d) / p <= (left * d) / p)
                by (nonlinear_arith)
                requires
                    segment.spent + rest == left,
                    p > 0,
            ;
            lemma_buy_from_bounded(
                curve,
                i + 1,
                0,
                rest,
                holding_after(held, segment.bought),
                p,
                target,
                settings,
            );
        }
    }
}

/// A purchase never gives more than the budget buys at the oracle's price,
/// for a budget and a curve in range and a price above zero: the curve only
/// raises the price, and the fees only take.
pub proof fn purchase_within_oracle_price(
    value: nat,
    settings: TokenSettings,
    price: OraclePrice,
    start: nat,
    target: nat,
    curve: Seq<CurveStep>,
)
    requires
        settings.wf(),
        price.buy_price > 0,
        buy_in_range(value, settings, price, curve),
    ensures
        spec_compute_amount_of_bought_token(value, settings, price, start, target, curve) <= (value
            * pow10(settings.decimals as nat)) / (price.buy_price as nat),
{
    lemma_buy_from_bounded(
        curve,
        0,
        buy_offset(start, target),
        value,
        start,
        price.buy_price as nat,
        target,
        settings,
    );
}

} // verus!
