use symmetry_swap::accounts::Address;
use symmetry_swap::accounts::CurveData;
use symmetry_swap::accounts::FeeRecipients;
use symmetry_swap::accounts::FundState;
use symmetry_swap::accounts::Holding;
use symmetry_swap::accounts::OraclePrice;
use symmetry_swap::accounts::TokenList;
use symmetry_swap::accounts::TokenPriceData;
use symmetry_swap::accounts::TokenSettings;
use symmetry_swap::errors::QuoteError;
use symmetry_swap::errors::TradeSide;
use symmetry_swap::quote::Quote;
use symmetry_swap::quote::QuoteParams;
use symmetry_swap::token_swap::SymmetryTokenSwap;

fn mint(tag: u8) -> Address {
    Address { bytes: [tag; 32] }
}

const USDC: u8 = 10;
const TOKEN_A: u8 = 11;
const TOKEN_C: u8 = 12;
const TOKEN_D: u8 = 13;

fn token(tag: u8, decimals: u8, sell_price: u64, buy_price: u64, avg_price: u64) -> TokenSettings {
    TokenSettings {
        token_mint: mint(tag),
        decimals,
        pda_token_account: Address { bytes: [tag + 100; 32] },
        oracle_account: Address { bytes: [tag + 200; 32] },
        oracle_price: OraclePrice { sell_price, buy_price, avg_price, oracle_live: true },
        token_swap_fee_before_tw_bps: 10,
        token_swap_fee_after_tw_bps: 30,
        use_curve_data: false,
        lp_on: true,
    }
}

fn holding(token: u64, amount: u64, target_weight: u64) -> Holding {
    Holding { token, amount, target_weight }
}

fn make_pool(list: Vec<TokenSettings>, composition: Vec<Holding>, thresholds: (u64, u64)) -> SymmetryTokenSwap {
    let fund_state = FundState {
        manager: Address { bytes: [7; 32] },
        host_pubkey: Address { bytes: [8; 32] },
        composition,
        weight_sum: 10000,
        rebalance_threshold: thresholds.0,
        lp_offset_threshold: thresholds.1,
        lp_disabled: false,
    };
    let token_list = TokenList {
        list,
        fee_recipients: FeeRecipients { symmetry_bps: 10, host_bps: 20, manager_bps: 30 },
    };
    SymmetryTokenSwap::from_keyed_account(Address { bytes: [9; 32] }, fund_state, token_list)
}

fn tokens() -> Vec<TokenSettings> {
    vec![
        token(USDC, 6, 1_000_000, 1_000_000, 1_000_000),
        token(TOKEN_A, 9, 20_000_000, 20_000_000, 20_000_000),
        token(TOKEN_C, 8, 30_000_000_000, 30_000_000_000, 30_000_000_000),
        token(TOKEN_D, 6, 2_000_000, 2_000_000, 2_000_000),
    ]
}

fn standard_pool() -> SymmetryTokenSwap {
    make_pool(
        tokens(),
        vec![holding(1, 1_000_000_000_000, 5000), holding(0, 20_000_000_000, 5000)],
        (1000, 5000),
    )
}

fn params(input: u8, output: u8, in_amount: u64) -> QuoteParams {
    QuoteParams { in_amount, input_mint: mint(input), output_mint: mint(output) }
}

fn quoted(pool: &SymmetryTokenSwap, input: u8, output: u8, in_amount: u64) -> Quote {
    pool.try_quote(&params(input, output, in_amount)).unwrap().unwrap()
}

fn refused(pool: &SymmetryTokenSwap, input: u8, output: u8, in_amount: u64) -> QuoteError {
    pool.try_quote(&params(input, output, in_amount)).unwrap().unwrap_err()
}

fn curved_pool() -> SymmetryTokenSwap {
    let mut list = tokens();
    list[0] = token(USDC, 6, 999_000, 1_001_000, 1_000_000);
    list[0].use_curve_data = true;
    list[1] = token(TOKEN_A, 9, 19_900_000, 20_100_000, 20_000_000);
    list[1].use_curve_data = true;
    let mut pool = make_pool(
        list,
        vec![holding(1, 900_000_000_000, 5000), holding(0, 22_000_000_000, 5000)],
        (1000, 5000),
    );
    let mut sell_usdc = TokenPriceData::flat();
    let mut sell_a = TokenPriceData::flat();
    let mut buy_usdc = TokenPriceData::flat();
    let mut buy_a = TokenPriceData::flat();
    for i in 0..10 {
        sell_usdc.amount[i] = 1_000_000_000;
        sell_usdc.price[i] = 998_000 - 1000 * i as u64;
        sell_a.amount[i] = 5_000_000_000;
        sell_a.price[i] = 19_890_000 - 10_000 * i as u64;
        buy_usdc.amount[i] = 100_000_000;
        buy_usdc.price[i] = 1_002_000 + 1000 * i as u64;
        buy_a.amount[i] = 5_000_000_000;
        buy_a.price[i] = 20_110_000 + 10_000 * i as u64;
    }
    pool.curve_data = CurveData { buy: vec![buy_usdc, buy_a], sell: vec![sell_usdc, sell_a] };
    pool
}

#[test]
fn ten_tokens_at_twenty_dollars_for_dollars() {
    let pool = standard_pool();
    let quote = quoted(&pool, TOKEN_A, USDC, 10_000_000_000);
    assert_eq!(quote.in_amount, 10_000_000_000);
    assert_eq!(quote.out_amount, 198_801_800);
    assert_eq!(quote.fee_amount, 1_198_200);
    assert_eq!(quote.fee_mint.bytes, mint(USDC).bytes);
    assert_eq!(quote.fee_pct, 5991);
    assert!(quote.out_amount < 200_000_000);
    assert!(quote.out_amount > 200_000_000 / 1000 * 990);
}

#[test]
fn quote_agrees_with_try_quote() {
    let pool = standard_pool();
    let quote = pool.quote(&params(TOKEN_A, USDC, 10_000_000_000)).unwrap();
    assert_eq!(quote.out_amount, 198_801_800);
    assert_eq!(quote.fee_amount, 1_198_200);
    assert_eq!(quote.fee_pct, 5991);
}

#[test]
fn dollars_for_tokens_at_twenty_dollars() {
    let pool = standard_pool();
    let quote = quoted(&pool, USDC, TOKEN_A, 200_000_000);
    assert_eq!(quote.out_amount, 9_940_090_000);
    assert_eq!(quote.fee_amount, 59_910_000);
    assert_eq!(quote.fee_mint.bytes, mint(TOKEN_A).bytes);
    assert_eq!(quote.fee_pct, 5991);
}

#[test]
fn amounts_too_small_to_be_worth_anything() {
    let pool = standard_pool();
    let quote = quoted(&pool, TOKEN_A, USDC, 1);
    assert_eq!((quote.out_amount, quote.fee_amount, quote.fee_pct), (0, 0, 0));
    let quote = quoted(&pool, TOKEN_A, USDC, 0);
    assert_eq!((quote.out_amount, quote.fee_amount, quote.fee_pct), (0, 0, 0));
}

#[test]
fn quotes_along_the_curves() {
    let pool = curved_pool();
    let quote = quoted(&pool, TOKEN_A, USDC, 10_000_000_000);
    assert_eq!((quote.out_amount, quote.fee_amount, quote.fee_pct), (197_958_523, 842_675, 4213));
    let quote = quoted(&pool, TOKEN_A, USDC, 30_000_000_000);
    assert_eq!((quote.out_amount, quote.fee_amount, quote.fee_pct), (592_112_409, 4_291_187, 7151));
    let quote = quoted(&pool, TOKEN_A, USDC, 47_000_000_000);
    assert_eq!((quote.out_amount, quote.fee_amount, quote.fee_pct), (925_302_406, 9_063_228, 9641));
}

#[test]
fn larger_trades_along_the_curves_give_no_less() {
    let pool = curved_pool();
    let mut last = 0;
    for in_amount in [0u64, 1, 49, 50, 10_000_000_000, 30_000_000_000, 30_000_000_001, 47_000_000_000]
    {
        let quote = quoted(&pool, TOKEN_A, USDC, in_amount);
        assert!(quote.out_amount >= last);
        last = quote.out_amount;
    }
}

#[test]
fn disabled_pool_refuses() {
    let mut pool = standard_pool();
    pool.fund_state.lp_disabled = true;
    assert_eq!(refused(&pool, TOKEN_A, USDC, 5), QuoteError::LiquidityProvisionDisabled);
    assert_eq!(refused(&pool, 99, 98, 5), QuoteError::LiquidityProvisionDisabled);
}

#[test]
fn unsupported_assets_are_refused() {
    let pool = standard_pool();
    assert_eq!(refused(&pool, 99, USDC, 5), QuoteError::AssetNotSupported(TradeSide::From));
    assert_eq!(refused(&pool, TOKEN_A, 99, 5), QuoteError::AssetNotSupported(TradeSide::To));
    assert_eq!(refused(&pool, 99, 98, 5), QuoteError::AssetNotSupported(TradeSide::From));
}

#[test]
fn assets_not_held_are_refused() {
    let pool = standard_pool();
    assert_eq!(refused(&pool, TOKEN_C, USDC, 5), QuoteError::AssetNotInComposition(TradeSide::From));
    assert_eq!(refused(&pool, TOKEN_A, TOKEN_C, 5), QuoteError::AssetNotInComposition(TradeSide::To));
    assert_eq!(refused(&pool, TOKEN_C, 99, 5), QuoteError::AssetNotSupported(TradeSide::To));
}

#[test]
fn stale_oracle_of_any_held_asset_refuses() {
    let mut pool = standard_pool();
    pool.token_list.list[0].oracle_price.oracle_live = false;
    assert_eq!(refused(&pool, TOKEN_A, USDC, 5), QuoteError::OracleStale);
    let mut pool = standard_pool();
    pool.token_list.list[2].oracle_price.oracle_live = false;
    assert_eq!(quoted(&pool, TOKEN_A, USDC, 10_000_000_000).out_amount, 198_801_800);
}

#[test]
fn trades_that_overweigh_the_asset_taken_in_are_refused() {
    let pool = standard_pool();
    assert_eq!(refused(&pool, TOKEN_A, USDC, 50_000_000_000), QuoteError::SellerWeightExceeded);
    assert_eq!(refused(&pool, TOKEN_A, USDC, 2_000_000_000_000), QuoteError::SellerWeightExceeded);
    assert_eq!(refused(&curved_pool(), USDC, TOKEN_A, 500_000_000), QuoteError::SellerWeightExceeded);
}

#[test]
fn trades_that_underweigh_the_asset_handed_out_are_refused() {
    let pool = make_pool(
        tokens(),
        vec![holding(1, 1_000_000_000_000, 6000), holding(0, 20_000_000_000, 5000)],
        (0, 0),
    );
    assert_eq!(refused(&pool, TOKEN_A, USDC, 10_000_000_000), QuoteError::BuyerWeightBelowMinimum);
}

fn dust_pool(target_weight_of_dust: u64) -> SymmetryTokenSwap {
    make_pool(
        tokens(),
        vec![holding(0, 1_000_000_000, 9000), holding(3, 50_000_000, target_weight_of_dust)],
        (0, 0),
    )
}

#[test]
fn dust_can_be_bought_out_with_the_base_asset() {
    let quote = quoted(&dust_pool(0), USDC, TOKEN_D, 100_000_000);
    assert_eq!((quote.out_amount, quote.fee_amount, quote.fee_pct), (49_800_150, 199_850, 3997));
}

#[test]
fn an_asset_with_a_target_is_no_dust() {
    assert_eq!(refused(&dust_pool(1000), USDC, TOKEN_D, 100_000_000), QuoteError::SellerWeightExceeded);
}

#[test]
fn selling_dust_into_the_pool_is_no_dust_removal() {
    let pool = make_pool(
        tokens(),
        vec![holding(0, 1_000_000_000, 10000), holding(3, 50_000_000, 0)],
        (0, 0),
    );
    assert_eq!(refused(&pool, TOKEN_D, USDC, 10_000_000), QuoteError::SellerWeightExceeded);
}

#[test]
fn a_quote_never_exceeds_the_inventory() {
    let pool = make_pool(
        tokens(),
        vec![holding(0, 1_000_000_000, 10000), holding(3, 50_000_000, 0)],
        (0, 0),
    );
    let quote = quoted(&pool, USDC, TOKEN_D, 150_000_000);
    assert_eq!((quote.out_amount, quote.fee_amount, quote.fee_pct), (50_000_000, 0, 0));
    let quote = quoted(&pool, USDC, TOKEN_D, 500_000_000);
    assert_eq!(quote.out_amount, 50_000_000);
}

#[test]
fn a_larger_trade_can_give_one_unit_less() {
    let mut cheap = token(21, 0, 1, 1, 1);
    cheap.token_swap_fee_before_tw_bps = 0;
    cheap.token_swap_fee_after_tw_bps = 0;
    let dear = token(22, 0, 1000, 1000, 1000);
    let pool = make_pool(
        vec![token(USDC, 6, 1, 1, 1), cheap, dear],
        vec![holding(1, 999_998_000, 5000), holding(2, 1_000_002, 5000)],
        (1000, 5000),
    );
    let smaller = quoted(&pool, 21, 22, 1_001_999);
    let larger = quoted(&pool, 21, 22, 1_002_000);
    assert_eq!((smaller.out_amount, smaller.fee_amount, smaller.fee_pct), (999, 2, 1998));
    assert_eq!((larger.out_amount, larger.fee_amount, larger.fee_pct), (998, 4, 3992));
}

#[test]
fn a_malformed_snapshot_is_not_quoted() {
    let pool = make_pool(tokens(), vec![holding(1, 5, 5000), holding(4, 5, 5000)], (1000, 5000));
    assert!(!pool.is_wf());
    assert!(pool.try_quote(&params(TOKEN_A, USDC, 5)).is_none());
    let mut list = tokens();
    list[1].decimals = 20;
    let pool = make_pool(list, vec![holding(1, 5, 5000), holding(0, 5, 5000)], (1000, 5000));
    assert!(pool.try_quote(&params(TOKEN_A, USDC, 5)).is_none());
    let pool = make_pool(tokens(), vec![holding(1, 5, 5000), holding(0, 5, 5000)], (10001, 10000));
    assert!(pool.try_quote(&params(TOKEN_A, USDC, 5)).is_none());
    let mut pool = standard_pool();
    pool.token_list.fee_recipients.manager_bps = 71;
    assert!(pool.try_quote(&params(TOKEN_A, USDC, 5)).is_none());
}

#[test]
fn a_trade_out_of_range_is_not_quoted() {
    let dear = token(TOKEN_A, 0, u64::MAX / 2, u64::MAX / 2, u64::MAX / 2);
    let pool = make_pool(
        vec![token(USDC, 0, 1, 1, 1), dear],
        vec![holding(1, 1, 5000), holding(1, 1, 5000), holding(1, 1, 5000), holding(0, 5, 5000)],
        (1000, 5000),
    );
    assert!(pool.is_wf());
    assert_eq!(pool.fund_worth(), None);
    assert!(pool.try_quote(&params(TOKEN_A, USDC, 1)).is_none());
    let pool = standard_pool();
    assert!(pool.try_quote(&params(TOKEN_A, USDC, u64::MAX)).is_none());
    assert_eq!(refused(&pool, TOKEN_C, USDC, u64::MAX), QuoteError::AssetNotInComposition(TradeSide::From));
}

#[test]
fn worth_of_the_pool() {
    assert_eq!(standard_pool().fund_worth(), Some(40_000_000_000));
    assert!(standard_pool().oracles_live());
    assert_eq!(make_pool(tokens(), vec![], (0, 0)).fund_worth(), Some(0));
}

#[test]
fn lookups() {
    let pool = standard_pool();
    assert_eq!(pool.find_token(&mint(USDC)), Some(0));
    assert_eq!(pool.find_token(&mint(TOKEN_D)), Some(3));
    assert_eq!(pool.find_token(&mint(99)), None);
    assert_eq!(pool.find_holding(1), Some(0));
    assert_eq!(pool.find_holding(0), Some(1));
    assert_eq!(pool.find_holding(2), None);
    let legs = pool.resolve(&mint(TOKEN_A), &mint(USDC)).unwrap();
    assert_eq!(
        (legs.from_token_id, legs.to_token_id, legs.from_index, legs.to_index),
        (1, 0, 0, 1)
    );
}

#[test]
fn the_first_of_two_tokens_with_one_mint_is_found() {
    let mut list = tokens();
    list[3].token_mint = mint(TOKEN_A);
    let pool = make_pool(list, vec![holding(3, 5, 5000), holding(1, 7, 5000), holding(1, 9, 0)], (0, 0));
    assert_eq!(pool.find_token(&mint(TOKEN_A)), Some(1));
    assert_eq!(pool.find_holding(1), Some(1));
}
