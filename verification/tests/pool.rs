use symmetry_swap::accounts::Address;
use symmetry_swap::accounts::CurveData;
use symmetry_swap::accounts::FeeRecipients;
use symmetry_swap::accounts::FundState;
use symmetry_swap::accounts::Holding;
use symmetry_swap::accounts::OraclePrice;
use symmetry_swap::accounts::TokenList;
use symmetry_swap::accounts::TokenPriceData;
use symmetry_swap::accounts::TokenSettings;
use symmetry_swap::addresses::CURVE_DATA_ADDRESS;
use symmetry_swap::addresses::SYMMETRY_PROGRAM_ADDRESS;
use symmetry_swap::token_swap::copy_of;
use symmetry_swap::token_swap::SymmetryTokenSwap;

fn token(tag: u8, lp_on: bool, has_oracle: bool) -> TokenSettings {
    TokenSettings {
        token_mint: Address { bytes: [tag; 32] },
        decimals: 6,
        pda_token_account: Address { bytes: [tag + 100; 32] },
        oracle_account: if has_oracle { Address { bytes: [tag + 200; 32] } } else { Address::default() },
        oracle_price: OraclePrice { sell_price: 1, buy_price: 2, avg_price: 3, oracle_live: false },
        token_swap_fee_before_tw_bps: 10,
        token_swap_fee_after_tw_bps: 30,
        use_curve_data: true,
        lp_on,
    }
}

fn fund_state(composition: Vec<Holding>) -> FundState {
    FundState {
        manager: Address { bytes: [7; 32] },
        host_pubkey: Address { bytes: [8; 32] },
        composition,
        weight_sum: 10000,
        rebalance_threshold: 1000,
        lp_offset_threshold: 5000,
        lp_disabled: false,
    }
}

fn holding(token: u64) -> Holding {
    Holding { token, amount: 100 + token, target_weight: 2500 }
}

fn pool() -> SymmetryTokenSwap {
    let token_list = TokenList {
        list: vec![token(1, true, true), token(2, false, true), token(3, true, false), token(4, true, true)],
        fee_recipients: FeeRecipients { symmetry_bps: 10, host_bps: 20, manager_bps: 30 },
    };
    SymmetryTokenSwap::from_keyed_account(
        Address { bytes: [9; 32] },
        fund_state(vec![holding(3), holding(1), holding(0)]),
        token_list,
    )
}

fn bytes_of(addresses: &Vec<Address>) -> Vec<[u8; 32]> {
    addresses.iter().map(|a| a.bytes).collect()
}

#[test]
fn a_new_pool_has_its_label_its_program_and_no_curve() {
    let pool = pool();
    assert_eq!(pool.label(), "Symmetry");
    assert_eq!(pool.program_id().bytes, SYMMETRY_PROGRAM_ADDRESS);
    assert_eq!(pool.key().bytes, [9; 32]);
    assert_eq!(pool.curve_data.buy.len(), 0);
    assert_eq!(pool.curve_data.sell.len(), 0);
    assert_eq!(pool.fund_state.composition.len(), 3);
    assert_eq!(pool.token_list.list.len(), 4);
}

#[test]
fn a_pool_without_curves_has_flat_curves() {
    let pool = pool();
    assert_eq!(pool.curve_data.sell_curve(2).amount, [0; 10]);
    assert_eq!(pool.curve_data.buy_curve(0).price, [0; 10]);
    let mut steep = TokenPriceData::flat();
    steep.amount[0] = 5;
    steep.price[0] = 6;
    let curves = CurveData { buy: vec![steep], sell: vec![TokenPriceData::flat(), steep] };
    assert_eq!(curves.buy_curve(0).amount[0], 5);
    assert_eq!(curves.buy_curve(1).amount[0], 0);
    assert_eq!(curves.sell_curve(0).price[0], 0);
    assert_eq!(curves.sell_curve(1).price[0], 6);
}

#[test]
fn reserve_mints_are_those_open_to_trading() {
    let pool = pool();
    assert!(pool.are_holdings_listed());
    assert_eq!(bytes_of(&pool.get_reserve_mints()), vec![[4u8; 32], [1u8; 32]]);
}

#[test]
fn holdings_out_of_the_list_are_found_out() {
    let mut pool = pool();
    pool.fund_state.composition.push(holding(4));
    assert!(!pool.are_holdings_listed());
    assert!(!pool.is_wf());
}

#[test]
fn accounts_to_update_are_the_curves_the_pool_and_the_oracles() {
    let pool = pool();
    assert_eq!(
        bytes_of(&pool.get_accounts_to_update()),
        vec![CURVE_DATA_ADDRESS, [9u8; 32], [201u8; 32], [202u8; 32], [204u8; 32]]
    );
}

#[test]
fn update_takes_the_state_the_curves_and_the_prices() {
    let mut pool = pool();
    let mut steep = TokenPriceData::flat();
    steep.amount[0] = 5;
    let prices: Vec<OraclePrice> = (0..3)
        .map(|i| OraclePrice { sell_price: 10 + i, buy_price: 20 + i, avg_price: 30 + i, oracle_live: true })
        .collect();
    pool.update(
        CurveData { buy: vec![steep], sell: vec![] },
        fund_state(vec![holding(2)]),
        &prices,
    );
    assert_eq!(pool.curve_data.buy.len(), 1);
    assert_eq!(pool.curve_data.buy[0].amount[0], 5);
    assert_eq!(pool.fund_state.composition.len(), 1);
    assert_eq!(pool.fund_state.composition[0].token, 2);
    let list = &pool.token_list.list;
    assert_eq!((list[0].oracle_price.sell_price, list[0].oracle_price.oracle_live), (10, true));
    assert_eq!((list[1].oracle_price.avg_price, list[1].oracle_price.oracle_live), (31, true));
    assert_eq!((list[2].oracle_price.sell_price, list[2].oracle_price.oracle_live), (1, false));
    assert_eq!((list[3].oracle_price.buy_price, list[3].oracle_price.oracle_live), (2, false));
    assert_eq!(list[0].token_mint.bytes, [1; 32]);
    assert_eq!(pool.key().bytes, [9; 32]);
    assert_eq!(pool.label(), "Symmetry");
}

#[test]
fn a_clone_is_in_the_same_state() {
    let mut pool = pool();
    pool.curve_data = CurveData { buy: vec![TokenPriceData::flat()], sell: vec![] };
    let copy = pool.clone();
    assert_eq!(copy.key.bytes, pool.key.bytes);
    assert_eq!(copy.label, pool.label);
    assert_eq!(copy.program_id.bytes, pool.program_id.bytes);
    assert_eq!(copy.fund_state.manager.bytes, [7; 32]);
    assert_eq!(copy.fund_state.host_pubkey.bytes, [8; 32]);
    assert_eq!(copy.fund_state.composition.len(), 3);
    assert_eq!(copy.fund_state.composition[2].amount, 100);
    assert_eq!(copy.fund_state.weight_sum, 10000);
    assert_eq!(copy.token_list.list.len(), 4);
    assert_eq!(copy.token_list.list[3].token_mint.bytes, [4; 32]);
    assert_eq!(copy.token_list.fee_recipients.manager_bps, 30);
    assert_eq!(copy.curve_data.buy.len(), 1);
    assert_eq!(copy.curve_data.sell.len(), 0);
}

#[test]
fn copies_of_vectors() {
    assert_eq!(copy_of(&vec![3u64, 1, 2]), vec![3u64, 1, 2]);
    assert_eq!(copy_of(&Vec::<u8>::new()), Vec::<u8>::new());
}

#[test]
fn addresses_compare_by_their_bytes() {
    let a = Address { bytes: [5; 32] };
    let mut b = Address { bytes: [5; 32] };
    assert!(a.same(&b));
    b.bytes[31] = 6;
    assert!(!a.same(&b));
    assert!(Address::default().is_default());
    assert!(!a.is_default());
    assert_eq!(Address::default().bytes, [0; 32]);
}

#[test]
fn settings_validity() {
    let mut settings = token(1, true, true);
    assert!(settings.is_wf());
    settings.decimals = 19;
    assert!(settings.is_wf());
    settings.decimals = 20;
    assert!(!settings.is_wf());
    settings.decimals = 6;
    settings.token_swap_fee_after_tw_bps = 10001;
    assert!(!settings.is_wf());
    settings.token_swap_fee_after_tw_bps = 10000;
    settings.token_swap_fee_before_tw_bps = 10001;
    assert!(!settings.is_wf());
}
