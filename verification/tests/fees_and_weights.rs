use symmetry_swap::accounts::FeeRecipients;
use symmetry_swap::errors::QuoteError;
use symmetry_swap::token_swap::SymmetryTokenSwap;

#[test]
fn fee_split_rounds_each_share_down_and_keeps_the_rest() {
    let recipients = FeeRecipients { symmetry_bps: 10, host_bps: 20, manager_bps: 30 };
    let split = SymmetryTokenSwap::split_fees(1_198_200, recipients);
    assert_eq!(split.symmetry_fee, 119_820);
    assert_eq!(split.host_fee, 239_640);
    assert_eq!(split.manager_fee, 359_460);
    assert_eq!(split.fund_fee, 479_280);
}

#[test]
fn fee_split_conserves_the_fee() {
    let recipients = FeeRecipients { symmetry_bps: 33, host_bps: 33, manager_bps: 34 };
    for total in [0u64, 1, 2, 3, 99, 100, 101, 842_675, u64::MAX] {
        let split = SymmetryTokenSwap::split_fees(total, recipients);
        let sum = split.symmetry_fee as u128
            + split.host_fee as u128
            + split.manager_fee as u128
            + split.fund_fee as u128;
        assert_eq!(sum, total as u128);
    }
}

#[test]
fn fee_split_of_small_fees_leaves_all_in_the_pool() {
    let recipients = FeeRecipients { symmetry_bps: 10, host_bps: 20, manager_bps: 30 };
    let split = SymmetryTokenSwap::split_fees(2, recipients);
    assert_eq!(
        (split.symmetry_fee, split.host_fee, split.manager_fee, split.fund_fee),
        (0, 0, 0, 2)
    );
    let split = SymmetryTokenSwap::split_fees(4, recipients);
    assert_eq!(
        (split.symmetry_fee, split.host_fee, split.manager_fee, split.fund_fee),
        (0, 0, 1, 3)
    );
}

#[test]
fn fee_split_without_recipients_keeps_everything() {
    let recipients = FeeRecipients { symmetry_bps: 0, host_bps: 0, manager_bps: 0 };
    let split = SymmetryTokenSwap::split_fees(1000, recipients);
    assert_eq!(split.fund_fee, 1000);
}

#[test]
fn recipients_validity() {
    assert!(FeeRecipients { symmetry_bps: 50, host_bps: 25, manager_bps: 25 }.is_wf());
    assert!(!FeeRecipients { symmetry_bps: 50, host_bps: 26, manager_bps: 25 }.is_wf());
    assert!(!FeeRecipients { symmetry_bps: u64::MAX, host_bps: 1, manager_bps: 0 }.is_wf());
}

#[test]
fn weights_inside_the_band_are_allowed() {
    assert_eq!(SymmetryTokenSwap::check_weights(5050, 4949, 5000, 5000, 1000, 5000, false), Ok(()));
    assert_eq!(SymmetryTokenSwap::check_weights(5250, 4750, 5000, 5000, 1000, 5000, false), Ok(()));
}

#[test]
fn seller_above_the_ceiling_is_refused() {
    assert_eq!(
        SymmetryTokenSwap::check_weights(5251, 4750, 5000, 5000, 1000, 5000, false),
        Err(QuoteError::SellerWeightExceeded)
    );
}

#[test]
fn buyer_below_the_floor_is_refused() {
    assert_eq!(
        SymmetryTokenSwap::check_weights(5250, 4749, 5000, 5000, 1000, 5000, false),
        Err(QuoteError::BuyerWeightBelowMinimum)
    );
}

#[test]
fn seller_is_judged_before_buyer() {
    assert_eq!(
        SymmetryTokenSwap::check_weights(5251, 4749, 5000, 5000, 1000, 5000, false),
        Err(QuoteError::SellerWeightExceeded)
    );
}

#[test]
fn ceiling_is_capped_at_the_whole_pool() {
    assert_eq!(SymmetryTokenSwap::check_weights(10000, 0, 9900, 0, 10000, 10000, false), Ok(()));
    assert_eq!(
        SymmetryTokenSwap::check_weights(10001, 0, 9900, 0, 10000, 10000, false),
        Err(QuoteError::SellerWeightExceeded)
    );
}

#[test]
fn dust_removal_lifts_the_ceiling_only() {
    assert_eq!(
        SymmetryTokenSwap::check_weights(10000, 0, 9000, 0, 0, 0, false),
        Err(QuoteError::SellerWeightExceeded)
    );
    assert_eq!(SymmetryTokenSwap::check_weights(10000, 0, 9000, 0, 0, 0, true), Ok(()));
    assert_eq!(
        SymmetryTokenSwap::check_weights(10000, 0, 9000, 1000, 0, 0, true),
        Err(QuoteError::BuyerWeightBelowMinimum)
    );
}
