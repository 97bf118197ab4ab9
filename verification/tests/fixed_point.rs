use symmetry_swap::token_swap::SymmetryTokenSwap;

#[test]
fn mul_div_rounds_down() {
    assert_eq!(SymmetryTokenSwap::mul_div(6, 7, 2), 21);
    assert_eq!(SymmetryTokenSwap::mul_div(10, 3, 4), 7);
    assert_eq!(SymmetryTokenSwap::mul_div(0, 3, 4), 0);
}

#[test]
fn mul_div_by_zero_is_zero() {
    assert_eq!(SymmetryTokenSwap::mul_div(5, 5, 0), 0);
    assert_eq!(SymmetryTokenSwap::mul_div(0, 0, 0), 0);
    assert_eq!(SymmetryTokenSwap::mul_div(u64::MAX, u64::MAX, 0), 0);
}

#[test]
fn mul_div_too_large_is_zero() {
    assert_eq!(SymmetryTokenSwap::mul_div(u64::MAX, u64::MAX, 1), 0);
    assert_eq!(SymmetryTokenSwap::mul_div(u64::MAX, 2, 1), 0);
}

#[test]
fn mul_div_uses_double_width() {
    assert_eq!(SymmetryTokenSwap::mul_div(u64::MAX, u64::MAX, u64::MAX), u64::MAX);
    assert_eq!(
        SymmetryTokenSwap::mul_div(u64::MAX, 10_000_000_000_000_000_000, 10_000_000_000_000_000_000),
        u64::MAX
    );
}

#[test]
fn amount_to_usd_value_scales_by_decimals() {
    assert_eq!(SymmetryTokenSwap::amount_to_usd_value(10_000_000_000, 9, 20_000_000), 200_000_000);
    assert_eq!(SymmetryTokenSwap::amount_to_usd_value(1, 9, 20_000_000), 0);
    assert_eq!(SymmetryTokenSwap::amount_to_usd_value(49, 9, 20_000_000), 0);
    assert_eq!(SymmetryTokenSwap::amount_to_usd_value(50, 9, 20_000_000), 1);
    assert_eq!(SymmetryTokenSwap::amount_to_usd_value(u64::MAX, 0, 2), 0);
}

#[test]
fn usd_value_to_amount_scales_by_decimals() {
    assert_eq!(SymmetryTokenSwap::usd_value_to_amount(200_000_000, 6, 1_000_000), 200_000_000);
    assert_eq!(SymmetryTokenSwap::usd_value_to_amount(1, 9, 20_000_000), 50);
    assert_eq!(SymmetryTokenSwap::usd_value_to_amount(7, 6, 0), 0);
    assert_eq!(SymmetryTokenSwap::usd_value_to_amount(u64::MAX, 19, 1), 0);
}

#[test]
fn conversion_round_trip_loses_little() {
    let value = SymmetryTokenSwap::amount_to_usd_value(123_456_789, 9, 20_000_000);
    assert_eq!(value, 2_469_135);
    let back = SymmetryTokenSwap::usd_value_to_amount(value, 9, 20_000_000);
    assert_eq!(back, 123_456_750);
    assert!(back <= 123_456_789);
    assert!(123_456_789 - back <= 1_000_000_000 / 20_000_000 + 1);
}

#[test]
fn conversion_round_trip_at_a_low_price() {
    let value = SymmetryTokenSwap::amount_to_usd_value(999, 6, 3);
    assert_eq!(value, 0);
    let back = SymmetryTokenSwap::usd_value_to_amount(value, 6, 3);
    assert_eq!(back, 0);
    assert!(999 - back <= 1_000_000 / 3 + 1);
}

#[test]
fn powers_of_ten() {
    assert_eq!(symmetry_swap::fixed_point::pow10_u64(0), 1);
    assert_eq!(symmetry_swap::fixed_point::pow10_u64(6), 1_000_000);
    assert_eq!(symmetry_swap::fixed_point::pow10_u64(19), 10_000_000_000_000_000_000);
}
