use std::str::FromStr;

use solana_sdk::pubkey::Pubkey;
use symmetry_swap::accounts::Address;
use symmetry_swap::accounts::FeeRecipients;
use symmetry_swap::accounts::FundState;
use symmetry_swap::accounts::Holding;
use symmetry_swap::accounts::OraclePrice;
use symmetry_swap::accounts::TokenList;
use symmetry_swap::accounts::TokenSettings;
use symmetry_swap::addresses::ASSOCIATED_TOKEN_PROGRAM_ADDRESS;
use symmetry_swap::addresses::CURVE_DATA_ADDRESS;
use symmetry_swap::addresses::PDA_ADDRESS;
use symmetry_swap::addresses::SPL_TOKEN_PROGRAM_ADDRESS;
use symmetry_swap::addresses::SWAP_FEE_ADDRESS;
use symmetry_swap::addresses::SYMMETRY_PROGRAM_ADDRESS;
use symmetry_swap::addresses::SYMMETRY_PROGRAM_SWAP_INSTRUCTION_ID;
use symmetry_swap::addresses::TOKEN_LIST_ADDRESS;
use symmetry_swap::errors::TradeSide;
use symmetry_swap::quote::QuoteParams;
use symmetry_swap::swap::AccountMeta;
use symmetry_swap::swap::Swap;
use symmetry_swap::swap::SwapError;
use symmetry_swap::swap::SwapParams;
use symmetry_swap::token_swap::SymmetryTokenSwap;

fn decoded(address: &str) -> [u8; 32] {
    Pubkey::from_str(address).unwrap().to_bytes()
}

const WSOL_TOKEN_MINT: &str = "So11111111111111111111111111111111111111112";
const USDC_TOKEN_MINT: &str = "EPjFWdd5AufqSSqeM2qN1xzybapC8G4wEGGkZwyTDt1v";
const USDT_TOKEN_MINT: &str = "Es9vMFrzaCERmJfrF4H2FYD4KCoNkY11McCe8BenwNYB";
const MSOL_TOKEN_MINT: &str = "mSoLzYCxHdYgdzU16g5QSh3i5K3z3KZK7ytfqcJm7So";
const FUND_STATE_ACCOUNT: &str = "4RofqKG4d6jfUD2HjtWb2F9UkLJvJ7P3kFmyuhX7H88d";

fn token(mint: &str, tag: u8, decimals: u8, price: u64) -> TokenSettings {
    TokenSettings {
        token_mint: Address { bytes: decoded(mint) },
        decimals,
        pda_token_account: Address { bytes: [tag + 100; 32] },
        oracle_account: Address { bytes: [tag + 200; 32] },
        oracle_price: OraclePrice {
            sell_price: price - price / 1000,
            buy_price: price + price / 1000,
            avg_price: price,
            oracle_live: true,
        },
        token_swap_fee_before_tw_bps: 10,
        token_swap_fee_after_tw_bps: 30,
        use_curve_data: false,
        lp_on: true,
    }
}

fn pool() -> SymmetryTokenSwap {
    let token_list = TokenList {
        list: vec![
            token(USDC_TOKEN_MINT, 0, 6, 1_000_000),
            token(WSOL_TOKEN_MINT, 1, 9, 20_000_000),
            token(USDT_TOKEN_MINT, 2, 6, 1_000_000),
            token(MSOL_TOKEN_MINT, 3, 9, 22_000_000),
        ],
        fee_recipients: FeeRecipients { symmetry_bps: 10, host_bps: 20, manager_bps: 30 },
    };
    let fund_state = FundState {
        manager: Address { bytes: [7; 32] },
        host_pubkey: Address { bytes: [8; 32] },
        composition: vec![
            Holding { token: 1, amount: 500_000_000_000, target_weight: 2500 },
            Holding { token: 0, amount: 10_000_000_000, target_weight: 2500 },
            Holding { token: 3, amount: 454_545_454_545, target_weight: 2500 },
            Holding { token: 2, amount: 10_000_000_000, target_weight: 2500 },
        ],
        weight_sum: 10000,
        rebalance_threshold: 1000,
        lp_offset_threshold: 5000,
        lp_disabled: false,
    };
    SymmetryTokenSwap::from_keyed_account(
        Address { bytes: decoded(FUND_STATE_ACCOUNT) },
        fund_state,
        token_list,
    )
}

fn associated_account(owner: [u8; 32], mint: [u8; 32]) -> [u8; 32] {
    Pubkey::find_program_address(
        &[&owner, &SPL_TOKEN_PROGRAM_ADDRESS, &mint],
        &Pubkey::new_from_array(ASSOCIATED_TOKEN_PROGRAM_ADDRESS),
    )
    .0
    .to_bytes()
}

fn swap_params(source: &str, destination: &str) -> SwapParams {
    let user = [42u8; 32];
    SwapParams {
        in_amount: 10_000_000_000,
        source_mint: Address { bytes: decoded(source) },
        destination_mint: Address { bytes: decoded(destination) },
        source_token_account: Address { bytes: associated_account(user, decoded(source)) },
        destination_token_account: Address { bytes: associated_account(user, decoded(destination)) },
        token_transfer_authority: Address { bytes: user },
    }
}

fn flat(meta: &AccountMeta) -> ([u8; 32], bool, bool) {
    (meta.pubkey.bytes, meta.is_signer, meta.is_writable)
}

#[test]
fn the_fixed_addresses_are_those_of_the_protocol() {
    assert_eq!(SYMMETRY_PROGRAM_ADDRESS, decoded("2KehYt3KsEQR53jYcxjbQp2d2kCp4AkuQW68atufRwSr"));
    assert_eq!(TOKEN_LIST_ADDRESS, decoded("3SnUughtueoVrhevXTLMf586qvKNNXggNsc7NgoMUU1t"));
    assert_eq!(CURVE_DATA_ADDRESS, decoded("4QMjSHuM3iS7Fdfi8kZJfHRKoEJSDHEtEwqbChsTcUVK"));
    assert_eq!(PDA_ADDRESS, decoded("BLBYiq48WcLQ5SxiftyKmPtmsZPUBEnDEjqEnKGAR4zx"));
    assert_eq!(SWAP_FEE_ADDRESS, decoded("AWfpfzA6FYbqx4JLz75PDgsjH7jtBnnmJ6MXW5zNY2Ei"));
    assert_eq!(
        ASSOCIATED_TOKEN_PROGRAM_ADDRESS,
        decoded("ATokenGPvbdGVxr1b2hvZbsiqW5xWH25efTNsLJA8knL")
    );
    assert_eq!(SPL_TOKEN_PROGRAM_ADDRESS, decoded("TokenkegQfeZyiNwAJbNbGKPFXCWuBvf9Ss623VQ5DA"));
    assert_eq!(SYMMETRY_PROGRAM_SWAP_INSTRUCTION_ID, 219478785678209410);
}

#[test]
fn a_fee_account_is_the_owners_associated_token_account() {
    let owner = Address { bytes: SWAP_FEE_ADDRESS };
    let mint = Address { bytes: decoded(USDC_TOKEN_MINT) };
    let account = SymmetryTokenSwap::fee_account(&owner, &mint).unwrap();
    assert_eq!(account.bytes, associated_account(SWAP_FEE_ADDRESS, decoded(USDC_TOKEN_MINT)));
    assert_ne!(account.bytes, owner.bytes);
    assert_ne!(account.bytes, mint.bytes);
    let other = SymmetryTokenSwap::fee_account(&mint, &owner).unwrap();
    assert_ne!(account.bytes, other.bytes);
}

#[test]
fn account_metas_are_writable_or_read_only() {
    let meta = AccountMeta::new(Address { bytes: [1; 32] }, true);
    assert_eq!(flat(&meta), ([1; 32], true, true));
    let meta = AccountMeta::new_readonly(Address { bytes: [2; 32] }, false);
    assert_eq!(flat(&meta), ([2; 32], false, false));
}

#[test]
fn settlement_lists_the_accounts_in_order() {
    let pool = pool();
    let params = swap_params(MSOL_TOKEN_MINT, USDC_TOKEN_MINT);
    let settlement = pool.get_swap_and_account_metas(&params).unwrap();
    assert_eq!(settlement.swap, Swap::TokenSwap);
    assert_eq!(settlement.arguments.instruction_id, 219478785678209410);
    assert_eq!(settlement.arguments.from_token_id, 3);
    assert_eq!(settlement.arguments.to_token_id, 0);
    assert_eq!(settlement.arguments.in_amount, 10_000_000_000);
    assert_eq!(settlement.arguments.minimum_amount_out, 0);
    let usdc = decoded(USDC_TOKEN_MINT);
    let expected: Vec<([u8; 32], bool, bool)> = vec![
        ([42; 32], true, true),
        (decoded(FUND_STATE_ACCOUNT), false, true),
        (PDA_ADDRESS, false, false),
        ([103; 32], false, true),
        (params.source_token_account.bytes, false, true),
        ([100; 32], false, true),
        (params.destination_token_account.bytes, false, true),
        (associated_account(SWAP_FEE_ADDRESS, usdc), false, true),
        (associated_account([8; 32], usdc), false, true),
        (associated_account([7; 32], usdc), false, true),
        (TOKEN_LIST_ADDRESS, false, false),
        (CURVE_DATA_ADDRESS, false, false),
        (SPL_TOKEN_PROGRAM_ADDRESS, false, false),
        ([201; 32], false, false),
        ([200; 32], false, false),
        ([203; 32], false, false),
        ([202; 32], false, false),
    ];
    let listed: Vec<([u8; 32], bool, bool)> = settlement.account_metas.iter().map(flat).collect();
    assert_eq!(listed, expected);
}

#[test]
fn settlement_needs_both_tokens_supported() {
    let pool = pool();
    let unknown = "11111111111111111111111111111111";
    let refused = pool.get_swap_and_account_metas(&swap_params(unknown, USDC_TOKEN_MINT));
    assert_eq!(refused.err(), Some(SwapError::AssetNotSupported(TradeSide::From)));
    let refused = pool.get_swap_and_account_metas(&swap_params(MSOL_TOKEN_MINT, unknown));
    assert_eq!(refused.err(), Some(SwapError::AssetNotSupported(TradeSide::To)));
}

#[test]
fn test_symetry_token_swap() {
    let token_swap = pool();

    let token_mints = token_swap.get_reserve_mints();
    println!("Available mints for swap: {:?}", token_mints);
    let from_token_mint = *token_mints.iter().find(|x| x.bytes == decoded(MSOL_TOKEN_MINT)).unwrap();
    let to_token_mint = *token_mints.iter().find(|x| x.bytes == decoded(USDC_TOKEN_MINT)).unwrap();

    let in_amount: u64 = 10_000_000_000;
    let quote = token_swap
        .try_quote(&QuoteParams { input_mint: from_token_mint, in_amount, output_mint: to_token_mint })
        .unwrap()
        .unwrap();
    println!("Quote result: {:?}", quote);
    assert_eq!(quote.in_amount, in_amount);
    assert_eq!(quote.fee_mint.bytes, decoded(USDC_TOKEN_MINT));

    let user = [42u8; 32];
    let user_source = associated_account(user, from_token_mint.bytes);
    let user_destination = associated_account(user, to_token_mint.bytes);
    let swap_and_account_metas = token_swap
        .get_swap_and_account_metas(&SwapParams {
            in_amount,
            source_mint: from_token_mint,
            destination_mint: to_token_mint,
            source_token_account: Address { bytes: user_source },
            destination_token_account: Address { bytes: user_destination },
            token_transfer_authority: Address { bytes: user },
        })
        .unwrap();
    assert_eq!(swap_and_account_metas.account_metas.len(), 17);
}
