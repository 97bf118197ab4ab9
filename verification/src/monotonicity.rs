//! A larger trade gives no less: for the value of a sale, for the units of a
//! purchase that pays a single fee tier, and for the quote made of both.
//!
//! Where the target falls inside a segment of a purchase, the split of the
//! segment's value between the two fee tiers is rounded, and a budget larger
//! by one can then buy one unit less. The purchase is therefore shown to
//! grow with the budget where the pool starts at or below its target, and
//! where it stays above its target all along.
use vstd::prelude::*;
use crate::accounts::CurveStep;
use crate::accounts::OraclePrice;
use crate::accounts::TokenSettings;
use crate::accounts::BPS_DIVIDER;
use crate::accounts::curve_of;
use crate::buy_curve::buy_curve_in_range;
use crate::buy_curve::buy_from;
use crate::buy_curve::buy_in_range;
use crate::buy_curve::buy_offset;
use crate::buy_curve::buy_price_at;
use crate::buy_curve::buy_segment;
use crate::buy_curve::buy_segment_amount;
use crate::buy_curve::holding_after;
use crate::buy_curve::lemma_buy_last_segment_in_range;
use crate::buy_curve::spec_compute_amount_of_bought_token;
use crate::composition::lemma_resolved_legs_valid;
use crate::composition::TradeLegs;
use crate::fixed_point::lemma_mul_div_monotonic;
use crate::price_bounds::sale_value_within_oracle_price;
use crate::fixed_point::spec_usd_value_to_amount;
use crate::quote::spec_target_amount;
use crate::quote::QuoteParams;
use crate::token_swap::SymmetryTokenSwap;
use crate::fixed_point::lemma_pow10_fits;
use crate::fixed_point::pow10;
use crate::fixed_point::spec_amount_to_usd_value;
use crate::sell_curve::amount_before_target;
use crate::sell_curve::fee_on;
use crate::sell_curve::lemma_sell_from_nothing;
use crate::sell_curve::sell_from;
use crate::sell_curve::sell_offset;
use crate::sell_curve::sell_price_at;
use crate::sell_curve::sell_segment_value;
use crate::sell_curve::spec_compute_value_of_sold_token;

verus! {

/// What is left after the fee grows with the value, as long as the fee
/// takes no more than the whole.
pub proof fn lemma_net_of_fee_monotonic(v1: nat, v2: nat, bps: nat)
    requires
        v1 <= v2 <= u64::MAX,
        bps <= BPS_DIVIDER,
    ensures
        fee_on(v1, bps) <= v1,
        fee_on(v2, bps) <= v2,
        v1 - fee_on(v1, bps) <= v2 - fee_on(v2, bps),
{
    assert((v1 * bps) / 10000 <= v1 && (v2 * bps) / 10000 <= v2 && v1 - (v1 * bps) / 10000 <= v2
        - (v2 * bps) / 10000) by (nonlinear_arith)
        requires
            v1 <= v2,
            bps <= 10000,
    ;
}

/// Within a value that fits in a `u64`, the value grows with the amount and
/// is the exact quotient.
pub proof fn lemma_value_monotonic(a1: nat, a2: nat, decimals: nat, price: nat)
    requires
        a1 <= a2,
        (a2 * price) / pow10(decimals) <= u64::MAX,
    ensures
        spec_amount_to_usd_value(a1, decimals, price) <= spec_amount_to_usd_value(
            a2,
            decimals,
            price,
        ),
        spec_amount_to_usd_value(a2, decimals, price) == (a2 * price) / pow10(decimals),
{
    crate::fixed_point::lemma_pow10_positive(decimals);
    lemma_mul_div_monotonic(a1, a2, price, pow10(decimals));
    lemma_mul_div_monotonic(a2, a2, price, pow10(decimals));
}

/// At a lower price an amount is worth no more.
pub proof fn lemma_exact_value_falls_with_price(amount: nat, decimals: nat, low: nat, high: nat)
    requires
        low <= high,
    ensures
        (amount * low) / pow10(decimals) <= (amount * high) / pow10(decimals),
{
    let d = pow10(decimals);
    crate::fixed_point::lemma_pow10_positive(decimals);
    assert((amount * low) / d <= (amount * high) / d) by (nonlinear_arith)
        requires
            low <= high,
            d > 0,
    ;
}

/// A smaller amount is worth no more, before rounding.
pub proof fn lemma_exact_value_grows_with_amount(a1: nat, a2: nat, decimals: nat, price: nat)
    requires
        a1 <= a2,
    ensures
        (a1 * price) / pow10(decimals) <= (a2 * price) / pow10(decimals),
{
    let d = pow10(decimals);
    crate::fixed_point::lemma_pow10_positive(decimals);
    assert((a1 * price) / d <= (a2 * price) / d) by (nonlinear_arith)
        requires
            a1 <= a2,
            d > 0,
    ;
}

/// One segment of a sale pays no less for more units.
pub proof fn lemma_sell_segment_monotonic(
    take1: nat,
    take2: nat,
    held: nat,
    target: nat,
    price: nat,
    settings: TokenSettings,
)
    requires
        settings.wf(),
        take1 <= take2,
        (take2 * price) / pow10(settings.decimals as nat) <= u64::MAX,
    ensures
        sell_segment_value(take1, held, target, price, settings) <= sell_segment_value(
            take2,
            held,
            target,
            price,
            settings,
        ),
{
    let dec = settings.decimals as nat;
    let before1 = amount_before_target(take1, held, target);
    let before2 = amount_before_target(take2, held, target);
    let after1 = (take1 - before1) as nat;
    let after2 = (take2 - before2) as nat;
    assert(before1 <= before2 <= take2);
    assert(after1 <= after2 <= take2);
    lemma_exact_value_grows_with_amount(before2, take2, dec, price);
    lemma_exact_value_grows_with_amount(after2, take2, dec, price);
    lemma_value_monotonic(before1, before2, dec, price);
    lemma_value_monotonic(after1, after2, dec, price);
    lemma_net_of_fee_monotonic(
        spec_amount_to_usd_value(before1, dec, price),
        spec_amount_to_usd_value(before2, dec, price),
        settings.token_swap_fee_before_tw_bps as nat,
    );
    lemma_net_of_fee_monotonic(
        spec_amount_to_usd_value(after1, dec, price),
        spec_amount_to_usd_value(after2, dec, price),
        settings.token_swap_fee_after_tw_bps as nat,
    );
}

/// From any point of the curve on, a sale pays no less for more units, as
/// long as the larger amount is worth no more than a `u64` holds at the
/// running price.
pub proof fn lemma_sell_from_monotonic(
    curve: Seq<CurveStep>,
    i: int,
    offset: nat,
    left1: nat,
    left2: nat,
    held: nat,
    price: nat,
    target: nat,
    settings: TokenSettings,
)
    requires
        settings.wf(),
        left1 <= left2,
        (left2 * price) / pow10(settings.decimals as nat) <= u64::MAX,
    ensures
        sell_from(curve, i, offset, left1, held, price, target, settings) <= sell_from(
            curve,
            i,
            offset,
            left2,
            held,
            price,
            target,
            settings,
        ),
    decreases curve.len() - i,
{
    let dec = settings.decimals as nat;
    if i < 0 || i >= curve.len() {
        lemma_sell_segment_monotonic(left1, left2, held, target, price, settings);
    } else {
        let step = curve[i];
        let p = sell_price_at(settings, price, step.price);
        lemma_exact_value_falls_with_price(left2, dec, p, price);
        if step.amount <= offset {
            lemma_sell_from_monotonic(
                curve,
                i + 1,
                (offset - step.amount) as nat,
                left1,
                left2,
                held,
                p,
                target,
                settings,
            );
        } else {
            let room = (step.amount - offset) as nat;
            let take1 = if room > left1 {
                left1
            } else {
                room
            };
            let take2 = if room > left2 {
                left2
            } else {
                room
            };
            lemma_exact_value_grows_with_amount(take2, left2, dec, p);
            lemma_sell_segment_monotonic(take1, take2, held, target, p, settings);
            if left1 >= room {
                lemma_exact_value_grows_with_amount((left2 - room) as nat, left2, dec, p);
                lemma_sell_from_monotonic(
                    curve,
                    i + 1,
                    0,
                    (left1 - room) as nat,
                    (left2 - room) as nat,
                    held + room,
                    p,
                    target,
                    settings,
                );
            } else {
                lemma_sell_from_nothing(curve, i + 1, 0, held + take1, p, target, settings);
            }
        }
    }
}

/// A sale pays no less for more units: the value that the pool pays never
/// falls as the amount grows, as long as the larger amount, at the oracle's
/// price, is worth no more than a `u64` holds.
pub proof fn sale_value_is_monotonic(
    amount1: nat,
    amount2: nat,
    settings: TokenSettings,
    price: OraclePrice,
    start: nat,
    target: nat,
    curve: Seq<CurveStep>,
)
    requires
        settings.wf(),
        amount1 <= amount2,
        (amount2 * price.sell_price as nat) / pow10(settings.decimals as nat) <= u64::MAX,
    ensures
        spec_compute_value_of_sold_token(amount1, settings, price, start, target, curve)
            <= spec_compute_value_of_sold_token(amount2, settings, price, start, target, curve),
{
    lemma_sell_from_monotonic(
        curve,
        0,
        sell_offset(start, target),
        amount1,
        amount2,
        start,
        price.sell_price as nat,
        target,
        settings,
    );
}

/// Within an amount that fits in a `u64`, what a value buys grows with the
/// value and is the exact quotient.
pub proof fn lemma_amount_monotonic(w1: nat, w2: nat, decimals: nat, price: nat)
    requires
        w1 <= w2,
        price > 0,
        (w2 * pow10(decimals)) / price <= u64::MAX,
    ensures
        spec_usd_value_to_amount(w1, decimals, price) <= spec_usd_value_to_amount(
            w2,
            decimals,
            price,
        ),
        spec_usd_value_to_amount(w2, decimals, price) == (w2 * pow10(decimals)) / price,
{
    lemma_mul_div_monotonic(w1, w2, pow10(decimals), price);
    lemma_mul_div_monotonic(w2, w2, pow10(decimals), price);
}

/// A smaller value at a higher price buys no more, before rounding.
pub proof fn lemma_exact_amount_bounds(w1: nat, w2: nat, decimals: nat, low: nat, high: nat)
    requires
        w1 <= w2,
        0 < low <= high,
    ensures
        (w1 * pow10(decimals)) / high <= (w2 * pow10(decimals)) / low,
{
    let d = pow10(decimals);
    assert((w1 * d) / high <= (w2 * d) / low) by (nonlinear_arith)
        requires
            w1 <= w2,
            0 < low <= high,
            d >= 0,
    ;
}

/// One segment of a purchase from a pool at or below its target takes no
/// less of a larger budget and gives no less for it; the holding itself
/// plays no part.
pub proof fn lemma_buy_segment_monotonic(
    cap1: nat,
    cap2: nat,
    left1: nat,
    left2: nat,
    held1: nat,
    held2: nat,
    target: nat,
    price: nat,
    settings: TokenSettings,
)
    requires
        settings.wf(),
        cap1 <= cap2,
        left1 <= left2 <= u64::MAX,
        held1 <= target,
        held2 <= target,
        price > 0,
        (cap2 * price) / pow10(settings.decimals as nat) <= u64::MAX,
        (left2 * pow10(settings.decimals as nat)) / price <= u64::MAX,
    ensures
        buy_segment(cap1, left1, held1, target, price, settings).spent <= buy_segment(
            cap2,
            left2,
            held2,
            target,
            price,
            settings,
        ).spent,
        buy_segment(cap1, left1, held1, target, price, settings).bought <= buy_segment(
            cap2,
            left2,
            held2,
            target,
            price,
            settings,
        ).bought,
        buy_segment(cap1, left1, held1, target, price, settings).spent <= left1,
        buy_segment(cap2, left2, held2, target, price, settings).spent <= left2,
        cap1 == cap2 ==> left1 - buy_segment(cap1, left1, held1, target, price, settings).spent
            <= left2 - buy_segment(cap2, left2, held2, target, price, settings).spent,
{
    let dec = settings.decimals as nat;
    let fee = settings.token_swap_fee_after_tw_bps as nat;
    lemma_value_monotonic(cap1, cap2, dec, price);
    lemma_exact_value_grows_with_amount(cap1, cap2, dec, price);
    lemma_value_monotonic(cap1, cap1, dec, price);
    let spent1 = buy_segment(cap1, left1, held1, target, price, settings).spent;
    let spent2 = buy_segment(cap2, left2, held2, target, price, settings).spent;
    assert(spent1 <= spent2);
    lemma_net_of_fee_monotonic(spent1, spent2, fee);
    crate::fixed_point::lemma_mul_div_of_zero(
        settings.token_swap_fee_before_tw_bps as nat,
        BPS_DIVIDER as nat,
    );
    let net1 = (spent1 - fee_on(spent1, fee)) as nat;
    let net2 = (spent2 - fee_on(spent2, fee)) as nat;
    lemma_exact_amount_bounds(net2, left2, dec, price, price);
    lemma_amount_monotonic(net1, net2, dec, price);
}

/// From any point of the curve on, a purchase from a pool at or below its
/// target gives no less for a larger budget, as long as twice the larger
/// budget buys no more than a `u64` holds at the running price.
pub proof fn lemma_buy_from_monotonic(
    curve: Seq<CurveStep>,
    i: int,
    offset: nat,
    left1: nat,
    left2: nat,
    held1: nat,
    held2: nat,
    price: nat,
    target: nat,
    settings: TokenSettings,
)
    requires
        settings.wf(),
        left1 <= left2,
        2 * left2 <= u64::MAX,
        held1 <= target,
        held2 <= target,
        price > 0,
        buy_curve_in_range(curve, i, price, settings),
        (2 * left2 * pow10(settings.decimals as nat)) / price <= u64::MAX,
    ensures
        buy_from(curve, i, offset, left1, held1, price, target, settings) <= buy_from(
            curve,
            i,
            offset,
            left2,
            held2,
            price,
            target,
            settings,
        ),
    decreases curve.len() - i,
{
    let dec = settings.decimals as nat;
    lemma_pow10_fits(dec);
    if i < 0 || i >= curve.len() {
        let cap1 = spec_usd_value_to_amount(2 * left1, dec, price);
        let cap2 = spec_usd_value_to_amount(2 * left2, dec, price);
        lemma_amount_monotonic(2 * left1, 2 * left2, dec, price);
        lemma_buy_last_segment_in_range(left2, price, settings);
        lemma_exact_amount_bounds(left2, 2 * left2, dec, price, price);
        lemma_buy_segment_monotonic(
            cap1,
            cap2,
            left1,
            left2,
            held1,
            held2,
            target,
            price,
            settings,
        );
    } else {
        let step = curve[i];
        let p = buy_price_at(settings, price, step.price);
        lemma_exact_amount_bounds(2 * left2, 2 * left2, dec, price, p);
        if step.amount <= offset {
            lemma_buy_from_monotonic(
                curve,
                i + 1,
                (offset - step.amount) as nat,
                left1,
                left2,
                held1,
                held2,
                p,
                target,
                settings,
            );
        } else {
            let cap = (step.amount - offset) as nat;
            lemma_exact_value_grows_with_amount(cap, step.amount, dec, p);
            lemma_exact_amount_bounds(left2, 2 * left2, dec, p, p);
            lemma_buy_segment_monotonic(cap, cap, left1, left2, held1, held2, target, p, settings);
            let first = buy_segment(cap, left1, held1, target, p, settings);
            let second = buy_segment(cap, left2, held2, target, p, settings);
            let rest1 = (left1 - first.spent) as nat;
            let rest2 = (left2 - second.spent) as nat;
            lemma_exact_amount_bounds(2 * rest2, 2 * left2, dec, p, p);
            lemma_buy_from_monotonic(
                curve,
                i + 1,
                0,
                rest1,
                rest2,
                holding_after(held1, first.bought),
                holding_after(held2, second.bought),
                p,
                target,
                settings,
            );
        }
    }
}

/// A purchase gives no less for a larger budget, where the pool holds no
/// more of the asset than its target, the asset has a price, and twice the
/// larger budget buys no more than a `u64` holds at that price.
pub proof fn purchase_below_target_is_monotonic(
    value1: nat,
    value2: nat,
    settings: TokenSettings,
    price: OraclePrice,
    start: nat,
    target: nat,
    curve: Seq<CurveStep>,
)
    requires
        settings.wf(),
        value1 <= value2,
        start <= target,
        price.buy_price > 0,
        buy_in_range(value2, settings, price, curve),
        (2 * value2 * pow10(settings.decimals as nat)) / (price.buy_price as nat) <= u64::MAX,
    ensures
        spec_compute_amount_of_bought_token(value1, settings, price, start, target, curve)
            <= spec_compute_amount_of_bought_token(value2, settings, price, start, target, curve),
{
    lemma_buy_from_monotonic(
        curve,
        0,
        buy_offset(start, target),
        value1,
        value2,
        start,
        start,
        price.buy_price as nat,
        target,
        settings,
    );
}

/// Whether a purchase leaves the holding above its target all along: in
/// every segment, from step `i` of the curve on, the holding exceeds the
/// target by more than the units that the segment covers, so that the
/// whole purchase pays the first fee tier.
pub open spec fn buy_stays_above(
    curve: Seq<CurveStep>,
    i: int,
    offset: nat,
    left: nat,
    held: nat,
    price: nat,
    target: nat,
    settings: TokenSettings,
) -> bool
    decreases curve.len() - i,
{
    if i < 0 || i >= curve.len() {
        let cap = spec_usd_value_to_amount(2 * left, settings.decimals as nat, price);
        held > target + buy_segment_amount(cap, left, price, settings)
    } else {
        let step = curve[i];
        let p = buy_price_at(settings, price, step.price);
        if step.amount <= offset {
            buy_stays_above(
                curve,
                i + 1,
                (offset - step.amount) as nat,
                left,
                held,
                p,
                target,
                settings,
            )
        } else {
            let cap = (step.amount - offset) as nat;
            let segment = buy_segment(cap, left, held, target, p, settings);
            &&& held > target + buy_segment_amount(cap, left, p, settings)
            &&& buy_stays_above(
                curve,
                i + 1,
                0,
                (left - segment.spent) as nat,
                holding_after(held, segment.bought),
                p,
                target,
                settings,
            )
        }
    }
}

/// A segment covers no fewer units of the curve for a larger budget, where
/// the two segments are as wide or the budgets differ.
pub proof fn lemma_buy_segment_amount_monotonic(
    cap1: nat,
    cap2: nat,
    left1: nat,
    left2: nat,
    price: nat,
    settings: TokenSettings,
)
    requires
        settings.wf(),
        cap1 <= cap2,
        left1 <= left2,
        cap1 == cap2 || left1 < left2,
        price > 0,
        (cap2 * price) / pow10(settings.decimals as nat) <= u64::MAX,
        (left2 * pow10(settings.decimals as nat)) / price <= u64::MAX,
    ensures
        buy_segment_amount(cap1, left1, price, settings) <= buy_segment_amount(
            cap2,
            left2,
            price,
            settings,
        ),
{
    let dec = settings.decimals as nat;
    let d = pow10(dec);
    lemma_pow10_fits(dec);
    lemma_exact_value_grows_with_amount(cap1, cap2, dec, price);
    lemma_value_monotonic(cap1, cap1, dec, price);
    lemma_value_monotonic(cap2, cap2, dec, price);
    lemma_amount_monotonic(left1, left2, dec, price);
    lemma_exact_amount_bounds(left1, left2, dec, price, price);
    lemma_amount_monotonic(left1, left1, dec, price);
    let full1 = (cap1 * price) / d;
    let full2 = (cap2 * price) / d;
    if full1 > left1 {
        if full2 <= left2 {
            assert((left1 * d) / price < cap1) by (nonlinear_arith)
                requires
                    (cap1 * price) / d > left1,
                    price > 0,
                    d > 0,
            ;
        }
    } else if full2 > left2 {
        assert(cap1 <= (left2 * d) / price) by (nonlinear_arith)
            requires
                (cap1 * price) / d <= left1,
                left1 < left2,
                price > 0,
                d > 0,
        ;
    }
}

/// One segment of a purchase that leaves the holding above its target
/// takes no less of a larger budget and gives no less for it.
pub proof fn lemma_buy_segment_above_monotonic(
    cap1: nat,
    cap2: nat,
    left1: nat,
    left2: nat,
    held: nat,
    target: nat,
    price: nat,
    settings: TokenSettings,
)
    requires
        settings.wf(),
        cap1 <= cap2,
        left1 <= left2 <= u64::MAX,
        cap1 == cap2 || left1 < left2,
        price > 0,
        (cap2 * price) / pow10(settings.decimals as nat) <= u64::MAX,
        (left2 * pow10(settings.decimals as nat)) / price <= u64::MAX,
        held > target + buy_segment_amount(cap2, left2, price, settings),
    ensures
        buy_segment(cap1, left1, held, target, price, settings).spent <= buy_segment(
            cap2,
            left2,
            held,
            target,
            price,
            settings,
        ).spent,
        buy_segment(cap1, left1, held, target, price, settings).bought <= buy_segment(
            cap2,
            left2,
            held,
            target,
            price,
            settings,
        ).bought,
{
    let dec = settings.decimals as nat;
    let fee = settings.token_swap_fee_before_tw_bps as nat;
    lemma_buy_segment_amount_monotonic(cap1, cap2, left1, left2, price, settings);
    lemma_value_monotonic(cap1, cap2, dec, price);
    lemma_exact_value_grows_with_amount(cap1, cap2, dec, price);
    lemma_value_monotonic(cap1, cap1, dec, price);
    let spent1 = buy_segment(cap1, left1, held, target, price, settings).spent;
    let spent2 = buy_segment(cap2, left2, held, target, price, settings).spent;
    assert(spent1 <= spent2);
    lemma_net_of_fee_monotonic(spent1, spent2, fee);
    crate::fixed_point::lemma_mul_div_of_zero(
        settings.token_swap_fee_after_tw_bps as nat,
        BPS_DIVIDER as nat,
    );
    let net1 = (spent1 - fee_on(spent1, fee)) as nat;
    let net2 = (spent2 - fee_on(spent2, fee)) as nat;
    lemma_exact_amount_bounds(net2, left2, dec, price, price);
    lemma_amount_monotonic(net1, net2, dec, price);
}

/// From any point of the curve on, a purchase that leaves the holding above
/// its target gives no less for a larger budget.
pub proof fn lemma_buy_from_above_monotonic(
    curve: Seq<CurveStep>,
    i: int,
    offset: nat,
    left1: nat,
    left2: nat,
    held: nat,
    price: nat,
    target: nat,
    settings: TokenSettings,
)
    requires
        settings.wf(),
        left1 <= left2,
        2 * left2 <= u64::MAX,
        price > 0,
        buy_curve_in_range(curve, i, price, settings),
        (2 * left2 * pow10(settings.decimals as nat)) / price <= u64::MAX,
        buy_stays_above(curve, i, offset, left2, held, price, target, settings),
    ensures
        buy_from(curve, i, offset, left1, held, price, target, settings) <= buy_from(
            curve,
            i,
            offset,
            left2,
            held,
            price,
            target,
            settings,
        ),
    decreases curve.len() - i,
{
    let dec = settings.decimals as nat;
    lemma_pow10_fits(dec);
    if left1 == left2 {
    } else if i < 0 || i >= curve.len() {
        let cap1 = spec_usd_value_to_amount(2 * left1, dec, price);
        let cap2 = spec_usd_value_to_amount(2 * left2, dec, price);
        lemma_amount_monotonic(2 * left1, 2 * left2, dec, price);
        lemma_buy_last_segment_in_range(left2, price, settings);
        lemma_exact_amount_bounds(left2, 2 * left2, dec, price, price);
        lemma_buy_segment_above_monotonic(cap1, cap2, left1, left2, held, target, price, settings);
    } else {
        let step = curve[i];
        let p = buy_price_at(settings, price, step.price);
        lemma_exact_amount_bounds(2 * left2, 2 * left2, dec, price, p);
        if step.amount <= offset {
            lemma_buy_from_above_monotonic(
                curve,
                i + 1,
                (offset - step.amount) as nat,
                left1,
                left2,
                held,
                p,
                target,
                settings,
            );
        } else {
            let cap = (step.amount - offset) as nat;
            lemma_exact_value_grows_with_amount(cap, step.amount, dec, p);
            lemma_exact_amount_bounds(left2, 2 * left2, dec, p, p);
            lemma_buy_segment_above_monotonic(cap, cap, left1, left2, held, target, p, settings);
            lemma_value_monotonic(cap, cap, dec, p);
            let first = buy_segment(cap, left1, held, target, p, settings);
            let second = buy_segment(cap, left2, held, target, p, settings);
            let full = spec_amount_to_usd_value(cap, dec, p);
            if left1 >= full {
                assert(first == second);
                let rest2 = (left2 - second.spent) as nat;
                lemma_exact_amount_bounds(2 * rest2, 2 * left2, dec, p, p);
                lemma_buy_from_above_monotonic(
                    curve,
                    i + 1,
                    0,
                    (left1 - first.spent) as nat,
                    rest2,
                    holding_after(held, second.bought),
                    p,
                    target,
                    settings,
                );
            } else {
                crate::buy_curve::lemma_buy_from_nothing(
                    curve,
                    i + 1,
                    0,
                    holding_after(held, first.bought),
                    p,
                    target,
                    settings,
                );
            }
        }
    }
}

/// A purchase gives no less for a larger budget, where the larger purchase
/// leaves the holding above its target all along, the asset has a price,
/// and twice the larger budget buys no more than a `u64` holds at that price.
pub proof fn purchase_above_target_is_monotonic(
    value1: nat,
    value2: nat,
    settings: TokenSettings,
    price: OraclePrice,
    start: nat,
    target: nat,
    curve: Seq<CurveStep>,
)
    requires
        settings.wf(),
        value1 <= value2,
        price.buy_price > 0,
        buy_in_range(value2, settings, price, curve),
        (2 * value2 * pow10(settings.decimals as nat)) / (price.buy_price as nat) <= u64::MAX,
        buy_stays_above(
            curve,
            0,
            buy_offset(start, target),
            value2,
            start,
            price.buy_price as nat,
            target,
            settings,
        ),
    ensures
        spec_compute_amount_of_bought_token(value1, settings, price, start, target, curve)
            <= spec_compute_amount_of_bought_token(value2, settings, price, start, target, curve),
{
    lemma_buy_from_above_monotonic(
        curve,
        0,
        buy_offset(start, target),
        value1,
        value2,
        start,
        price.buy_price as nat,
        target,
        settings,
    );
}

impl SymmetryTokenSwap {
    /// Whether the purchase of a trade pays a single fee tier: the pool
    /// holds no more of the asset handed out than its target, or it holds
    /// more and the purchase leaves it above the target all along.
    pub open spec fn single_fee_tier(&self, legs: TradeLegs, amount: nat) -> bool {
        let to = self.to_settings(legs);
        let held = self.to_holding(legs).amount as nat;
        let target = spec_target_amount(
            self.to_holding(legs),
            to,
            self.worth(),
            self.fund_state.weight_sum as nat,
        );
        held <= target || buy_stays_above(
            curve_of(self.curve_data.buy@, legs.to_token_id as int),
            0,
            buy_offset(held, target),
            self.spec_sold_value(legs, amount),
            held,
            to.oracle_price.buy_price as nat,
            target,
            to,
        )
    }

    /// The trades for which a larger amount is shown to give no less: the
    /// purchase pays a single fee tier, the asset handed out has a price
    /// and a curve in range, and twice the worth of the amount taken in, at
    /// the oracle's price, fits in a `u64`, as do the units that it buys.
    pub open spec fn steady_range(&self, legs: TradeLegs, amount: nat) -> bool {
        let from = self.from_settings(legs);
        let to = self.to_settings(legs);
        let to_price = to.oracle_price.buy_price as nat;
        let worth = (amount * from.oracle_price.sell_price as nat) / pow10(from.decimals as nat);
        &&& self.single_fee_tier(legs, amount)
        &&& to_price > 0
        &&& 2 * worth <= u64::MAX
        &&& (2 * worth * pow10(to.decimals as nat)) / to_price <= u64::MAX
        &&& buy_curve_in_range(
            curve_of(self.curve_data.buy@, legs.to_token_id as int),
            0,
            to_price,
            to,
        )
    }
}

/// Of two quotes of one pool for the same pair of assets, the one for the
/// larger amount hands out no less, where the larger trade is in the range
/// above. A trade refused for its weights has no quote to compare.
pub proof fn quote_is_monotonic(pool: SymmetryTokenSwap, first: QuoteParams, second: QuoteParams)
    requires
        pool.wf(),
        first.input_mint@ == second.input_mint@,
        first.output_mint@ == second.output_mint@,
        first.in_amount <= second.in_amount,
        pool.spec_resolve(second.input_mint@, second.output_mint@) matches Ok(legs)
            ==> pool.steady_range(legs, second.in_amount as nat),
    ensures
        pool.spec_quote(first) is Ok && pool.spec_quote(second) is Ok ==> pool.spec_quote(
            first,
        )->Ok_0.out_amount <= pool.spec_quote(second)->Ok_0.out_amount,
{
    if pool.spec_quote(first) is Ok && pool.spec_quote(second) is Ok {
        lemma_resolved_legs_valid(pool, second.input_mint@, second.output_mint@);
        let legs = pool.spec_resolve(second.input_mint@, second.output_mint@)->Ok_0;
        let a1 = first.in_amount as nat;
        let a2 = second.in_amount as nat;
        let from = pool.from_settings(legs);
        let to = pool.to_settings(legs);
        assert(from.wf() && to.wf()) by {
            assert(pool.fund_state.composition@[legs.from_index as int].token
                == legs.from_token_id);
            assert(pool.fund_state.composition@[legs.to_index as int].token == legs.to_token_id);
        }
        let from_target = spec_target_amount(
            pool.from_holding(legs),
            from,
            pool.worth(),
            pool.fund_state.weight_sum as nat,
        );
        let to_target = spec_target_amount(
            pool.to_holding(legs),
            to,
            pool.worth(),
            pool.fund_state.weight_sum as nat,
        );
        let sell_curve = curve_of(pool.curve_data.sell@, legs.from_token_id as int);
        let held = pool.from_holding(legs).amount as nat;
        let worth = spec_amount_to_usd_value(
            a2,
            from.decimals as nat,
            from.oracle_price.sell_price as nat,
        );
        sale_value_within_oracle_price(a2, from, from.oracle_price, held, from_target, sell_curve);
        sale_value_is_monotonic(a1, a2, from, from.oracle_price, held, from_target, sell_curve);
        lemma_exact_amount_bounds(
            2 * pool.spec_sold_value(legs, a2),
            2 * worth,
            to.decimals as nat,
            to.oracle_price.buy_price as nat,
            to.oracle_price.buy_price as nat,
        );
        lemma_exact_amount_bounds(
            worth,
            2 * worth,
            to.decimals as nat,
            to.oracle_price.buy_price as nat,
            to.oracle_price.buy_price as nat,
        );
        if pool.to_holding(legs).amount <= to_target {
            purchase_below_target_is_monotonic(
                pool.spec_sold_value(legs, a1),
                pool.spec_sold_value(legs, a2),
                to,
                to.oracle_price,
                pool.to_holding(legs).amount as nat,
                to_target,
                curve_of(pool.curve_data.buy@, legs.to_token_id as int),
            );
        } else {
            purchase_above_target_is_monotonic(
                pool.spec_sold_value(legs, a1),
                pool.spec_sold_value(legs, a2),
                to,
                to.oracle_price,
                pool.to_holding(legs).amount as nat,
                to_target,
                curve_of(pool.curve_data.buy@, legs.to_token_id as int),
            );
        }
        lemma_value_monotonic(
            a1,
            a2,
            from.decimals as nat,
            from.oracle_price.sell_price as nat,
        );
        lemma_amount_monotonic(
            spec_amount_to_usd_value(a1, from.decimals as nat, from.oracle_price.sell_price as nat),
            spec_amount_to_usd_value(a2, from.decimals as nat, from.oracle_price.sell_price as nat),
            to.decimals as nat,
            to.oracle_price.buy_price as nat,
        );
        assert(pool.spec_out_amount(legs, a1) <= pool.spec_out_amount(legs, a2));
    }
}

} // verus!
