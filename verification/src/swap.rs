//! What the settlement of a trade needs: the two assets, the amount, and the
//! accounts that the swap instruction touches.
use vstd::prelude::*;
use crate::accounts::Address;
use crate::accounts::Holding;
use crate::accounts::TokenSettings;
use crate::addresses::address;
use crate::addresses::ASSOCIATED_TOKEN_PROGRAM_ADDRESS;
use crate::addresses::CURVE_DATA_ADDRESS;
use crate::addresses::PDA_ADDRESS;
use crate::addresses::SPL_TOKEN_PROGRAM_ADDRESS;
use crate::addresses::SWAP_FEE_ADDRESS;
use crate::addresses::SYMMETRY_PROGRAM_SWAP_INSTRUCTION_ID;
use crate::addresses::TOKEN_LIST_ADDRESS;
use crate::composition::token_id_of;
use crate::errors::TradeSide;
use crate::token_swap::SymmetryTokenSwap;

verus! {

/// A trade to be settled.
#[derive(Clone, Copy, Debug)]
pub struct SwapParams {
    pub in_amount: u64,
    pub source_mint: Address,
    pub destination_mint: Address,
    pub source_token_account: Address,
    pub destination_token_account: Address,
    pub token_transfer_authority: Address,
}

/// An account that an instruction touches, and how.
#[derive(Clone, Copy, Debug)]
pub struct AccountMeta {
    pub pubkey: Address,
    pub is_signer: bool,
    pub is_writable: bool,
}

/// An account of an instruction, with its address as a sequence of bytes.
pub struct AccountMetaView {
    pub pubkey: Seq<u8>,
    pub is_signer: bool,
    pub is_writable: bool,
}

impl View for AccountMeta {
    type V = AccountMetaView;

    open spec fn view(&self) -> AccountMetaView {
        AccountMetaView {
            pubkey: self.pubkey@,
            is_signer: self.is_signer,
            is_writable: self.is_writable,
        }
    }
}

/// An account that the instruction may write to.
pub open spec fn writable(pubkey: Seq<u8>, is_signer: bool) -> AccountMetaView {
    AccountMetaView { pubkey, is_signer, is_writable: true }
}

/// An account that the instruction only reads.
pub open spec fn readonly(pubkey: Seq<u8>, is_signer: bool) -> AccountMetaView {
    AccountMetaView { pubkey, is_signer, is_writable: false }
}

impl AccountMeta {
    /// An account that the instruction may write to.
    pub fn new(pubkey: Address, is_signer: bool) -> (r: AccountMeta)
        ensures
            r@ == writable(pubkey@, is_signer),
    {
        AccountMeta { pubkey, is_signer, is_writable: true }
    }

    /// An account that the instruction only reads.
    pub fn new_readonly(pubkey: Address, is_signer: bool) -> (r: AccountMeta)
        ensures
            r@ == readonly(pubkey@, is_signer),
    {
        AccountMeta { pubkey, is_signer, is_writable: false }
    }
}

/// The kind of swap that the settlement performs.
#[derive(Clone, Copy, Debug, PartialEq, Eq, Structural)]
pub enum Swap {
    TokenSwap,
}

/// The arguments of the swap instruction.
#[derive(Clone, Copy, Debug, PartialEq, Eq, Structural)]
pub struct SwapArguments {
    pub instruction_id: u64,
    pub from_token_id: u64,
    pub to_token_id: u64,
    pub in_amount: u64,
    pub minimum_amount_out: u64,
}

/// The swap to perform, its arguments, and the accounts it touches, in the
/// order in which the program expects them.
pub struct SwapAndAccountMetas {
    pub swap: Swap,
    pub arguments: SwapArguments,
    pub account_metas: Vec<AccountMeta>,
}

/// Why a trade cannot be settled.
#[derive(Clone, Copy, Debug, PartialEq, Eq, Structural)]
pub enum SwapError {
    /// The asset is not in the list of supported tokens.
    AssetNotSupported(TradeSide),
    /// No address can be derived for the account that collects a fee.
    NoFeeAccount,
}

/// The address, with its bump seed, that Solana derives for a program from
/// a list of seeds; `None` where no bump seed gives one.
pub uninterp spec fn program_derived_address(seeds: Seq<Seq<u8>>, program_id: Seq<u8>) -> Option<(Seq<u8>, u8)>;

/// The account in which `owner` collects tokens minted at `mint`: the
/// address derived for the associated token program from the owner, the
/// token program and the mint.
pub open spec fn fee_account_of(owner: Seq<u8>, mint: Seq<u8>) -> Option<Seq<u8>> {
    match program_derived_address(
        seq![owner, SPL_TOKEN_PROGRAM_ADDRESS@, mint],
        ASSOCIATED_TOKEN_PROGRAM_ADDRESS@,
    ) {
        Some(found) => Some(found.0),
        None => None,
    }
}

/// Calls `Pubkey::try_find_program_address` of `solana_sdk` on three seeds
/// of 32 bytes each. The address and bump seed that it returns depend on
/// the seeds and the program alone; they are known here only by the name
/// `program_derived_address`.
#[verifier::external_body]
fn find_program_address(first: &Address, second: &Address, third: &Address, program_id: &Address) -> (r:
    Option<(Address, u8)>)
    ensures
        match r {
            Some(found) => program_derived_address(seq![first@, second@, third@], program_id@)
                == Some((found.0@, found.1)),
            None => program_derived_address(seq![first@, second@, third@], program_id@) is None,
        },
{
    let program = solana_sdk::pubkey::Pubkey::new_from_array(program_id.bytes);
    match solana_sdk::pubkey::Pubkey::try_find_program_address(
        &[&first.bytes, &second.bytes, &third.bytes],
        &program,
    ) {
        Some((key, bump)) => Some((Address { bytes: key.to_bytes() }, bump)),
        None => None,
    }
}

/// The oracle accounts of the first `n` holdings, read-only, in the pool's order.
pub open spec fn oracle_metas_of(composition: Seq<Holding>, list: Seq<TokenSettings>, n: int) -> Seq<
    AccountMetaView,
>
    decreases n,
{
    if n <= 0 {
        Seq::empty()
    } else {
        oracle_metas_of(composition, list, n - 1).push(
            readonly(list[composition[n - 1].token as int].oracle_account@, false),
        )
    }
}

/// The views of a sequence of accounts.
pub open spec fn views_of(metas: Seq<AccountMeta>) -> Seq<AccountMetaView> {
    metas.map_values(|meta: AccountMeta| meta@)
}

impl SymmetryTokenSwap {
    /// The accounts of the swap instruction: the trader, the pool and its
    /// authority, the token accounts on both sides, the three accounts that
    /// collect fees, the token list, the curves and the token program, and
    /// then the oracle of every asset that the pool holds.
    pub open spec fn spec_swap_account_metas(
        &self,
        swap_params: SwapParams,
        from_token_id: int,
        to_token_id: int,
        swap_fee_account: Seq<u8>,
        host_fee_account: Seq<u8>,
        manager_fee_account: Seq<u8>,
    ) -> Seq<AccountMetaView> {
        seq![
            writable(swap_params.token_transfer_authority@, true),
            writable(self.key@, false),
            readonly(PDA_ADDRESS@, false),
            writable(self.token_list.list@[from_token_id].pda_token_account@, false),
            writable(swap_params.source_token_account@, false),
            writable(self.token_list.list@[to_token_id].pda_token_account@, false),
            writable(swap_params.destination_token_account@, false),
            writable(swap_fee_account, false),
            writable(host_fee_account, false),
            writable(manager_fee_account, false),
            readonly(TOKEN_LIST_ADDRESS@, false),
            readonly(CURVE_DATA_ADDRESS@, false),
            readonly(SPL_TOKEN_PROGRAM_ADDRESS@, false),
        ] + oracle_metas_of(
            self.fund_state.composition@,
            self.token_list.list@,
            self.fund_state.composition@.len() as int,
        )
    }

    /// Lists the accounts of the swap instruction, given the two tokens and
    /// the three accounts that collect fees.
    pub fn swap_account_metas(
        &self,
        swap_params: &SwapParams,
        from_token_id: usize,
        to_token_id: usize,
        swap_fee_account: Address,
        host_fee_account: Address,
        manager_fee_account: Address,
    ) -> (r: Vec<AccountMeta>)
        requires
            self.holdings_listed(),
            from_token_id < self.token_list.list@.len(),
            to_token_id < self.token_list.list@.len(),
        ensures
            views_of(r@) == self.spec_swap_account_metas(
                *swap_params,
                from_token_id as int,
                to_token_id as int,
                swap_fee_account@,
                host_fee_account@,
                manager_fee_account@,
            ),
    {
        let mut account_metas: Vec<AccountMeta> = Vec::new();
        account_metas.push(AccountMeta::new(swap_params.token_transfer_authority, true));
        account_metas.push(AccountMeta::new(self.key, false));
        account_metas.push(AccountMeta::new_readonly(address(PDA_ADDRESS), false));
        account_metas.push(
            AccountMeta::new(self.token_list.list[from_token_id].pda_token_account, false),
        );
        account_metas.push(AccountMeta::new(swap_params.source_token_account, false));
        account_metas.push(
            AccountMeta::new(self.token_list.list[to_token_id].pda_token_account, false),
        );
        account_metas.push(AccountMeta::new(swap_params.destination_token_account, false));
        account_metas.push(AccountMeta::new(swap_fee_account, false));
        account_metas.push(AccountMeta::new(host_fee_account, false));
        account_metas.push(AccountMeta::new(manager_fee_account, false));
        account_metas.push(AccountMeta::new_readonly(address(TOKEN_LIST_ADDRESS), false));
        account_metas.push(AccountMeta::new_readonly(address(CURVE_DATA_ADDRESS), false));
        account_metas.push(AccountMeta::new_readonly(address(SPL_TOKEN_PROGRAM_ADDRESS), false));
        let ghost fixed = views_of(account_metas@);
        assert(fixed =~= seq![
            writable(swap_params.token_transfer_authority@, true),
            writable(self.key@, false),
            readonly(PDA_ADDRESS@, false),
            writable(self.token_list.list@[from_token_id as int].pda_token_account@, false),
            writable(swap_params.source_token_account@, false),
            writable(self.token_list.list@[to_token_id as int].pda_token_account@, false),
            writable(swap_params.destination_token_account@, false),
            writable(swap_fee_account@, false),
            writable(host_fee_account@, false),
            writable(manager_fee_account@, false),
            readonly(TOKEN_LIST_ADDRESS@, false),
            readonly(CURVE_DATA_ADDRESS@, false),
            readonly(SPL_TOKEN_PROGRAM_ADDRESS@, false),
        ]);
        let n = self.fund_state.composition.len();
        let tokens = self.token_list.list.len();
        let mut i: usize = 0;
        while i < n
            invariant
                i <= n,
                n == self.fund_state.composition@.len(),
                tokens == self.token_list.list@.len(),
                self.holdings_listed(),
                views_of(account_metas@) == fixed + oracle_metas_of(
                    self.fund_state.composition@,
                    self.token_list.list@,
                    i as int,
                ),
            decreases n - i,
        {
            assert(self.fund_state.composition@[i as int].token < self.token_list.list@.len());
            let token = self.fund_state.composition[i].token as usize;
            let ghost before = account_metas@;
            account_metas.push(
                AccountMeta::new_readonly(self.token_list.list[token].oracle_account, false),
            );
            assert(views_of(account_metas@) =~= views_of(before).push(
                readonly(self.token_list.list@[token as int].oracle_account@, false),
            ));
            assert(views_of(account_metas@) =~= fixed + oracle_metas_of(
                self.fund_state.composition@,
                self.token_list.list@,
                i as int + 1,
            ));
            i = i + 1;
        }
        account_metas
    }

    /// What the settlement of a trade needs, or why it cannot be settled:
    /// both tokens must be supported, the one paid in being looked at
    /// first, and each of the three fee accounts must have an address.
    pub open spec fn spec_get_swap_and_account_metas(&self, swap_params: SwapParams) -> Result<
        (SwapArguments, Seq<AccountMetaView>),
        SwapError,
    > {
        let list = self.token_list.list@;
        let mint = swap_params.destination_mint@;
        match token_id_of(list, swap_params.source_mint@) {
            None => Err(SwapError::AssetNotSupported(TradeSide::From)),
            Some(from_id) => match token_id_of(list, mint) {
                None => Err(SwapError::AssetNotSupported(TradeSide::To)),
                Some(to_id) => match fee_account_of(SWAP_FEE_ADDRESS@, mint) {
                    None => Err(SwapError::NoFeeAccount),
                    Some(swap_fee) => match fee_account_of(self.fund_state.host_pubkey@, mint) {
                        None => Err(SwapError::NoFeeAccount),
                        Some(host_fee) => match fee_account_of(self.fund_state.manager@, mint) {
                            None => Err(SwapError::NoFeeAccount),
                            Some(manager_fee) => Ok(
                                (
                                    SwapArguments {
                                        instruction_id: SYMMETRY_PROGRAM_SWAP_INSTRUCTION_ID,
                                        from_token_id: from_id as u64,
                                        to_token_id: to_id as u64,
                                        in_amount: swap_params.in_amount,
                                        minimum_amount_out: 0,
                                    },
                                    self.spec_swap_account_metas(
                                        swap_params,
                                        from_id,
                                        to_id,
                                        swap_fee,
                                        host_fee,
                                        manager_fee,
                                    ),
                                ),
                            ),
                        },
                    },
                },
            },
        }
    }

    /// The account in which `owner` collects tokens minted at `mint`.
    pub fn fee_account(owner: &Address, mint: &Address) -> (r: Option<Address>)
        ensures
            match r {
                Some(account) => fee_account_of(owner@, mint@) == Some(account@),
                None => fee_account_of(owner@, mint@) is None,
            },
    {
        let token_program = address(SPL_TOKEN_PROGRAM_ADDRESS);
        let associated_token_program = address(ASSOCIATED_TOKEN_PROGRAM_ADDRESS);
        match find_program_address(owner, &token_program, mint, &associated_token_program) {
            Some(found) => Some(found.0),
            None => None,
        }
    }

    /// Describes the settlement of a trade: the swap, its arguments, and
    /// the accounts that the instruction touches.
    pub fn get_swap_and_account_metas(&self, swap_params: &SwapParams) -> (r: Result<
        SwapAndAccountMetas,
        SwapError,
    >)
        requires
            self.holdings_listed(),
        ensures
            match r {
                Ok(settlement) => settlement.swap == Swap::TokenSwap
                    && self.spec_get_swap_and_account_metas(*swap_params) == Ok::<
                    (SwapArguments, Seq<AccountMetaView>),
                    SwapError,
                >((settlement.arguments, views_of(settlement.account_metas@))),
                Err(e) => self.spec_get_swap_and_account_metas(*swap_params) == Err::<
                    (SwapArguments, Seq<AccountMetaView>),
                    SwapError,
                >(e),
            },
    {
        let from_token_id = match self.find_token(&swap_params.source_mint) {
            Some(id) => id,
            None => {
                return Err(SwapError::AssetNotSupported(TradeSide::From));
            },
        };
        let to_token_id = match self.find_token(&swap_params.destination_mint) {
            Some(id) => id,
            None => {
                return Err(SwapError::AssetNotSupported(TradeSide::To));
            },
        };
        proof {
            crate::composition::lemma_token_id_from(
                self.token_list.list@,
                swap_params.source_mint@,
                0,
            );
            crate::composition::lemma_token_id_from(
                self.token_list.list@,
                swap_params.destination_mint@,
                0,
            );
        }
        let swap_fee_owner = address(SWAP_FEE_ADDRESS);
        let swap_fee_account = match Self::fee_account(
            &swap_fee_owner,
            &swap_params.destination_mint,
        ) {
            Some(account) => account,
            None => {
                return Err(SwapError::NoFeeAccount);
            },
        };
        let host_fee_account = match Self::fee_account(
            &self.fund_state.host_pubkey,
            &swap_params.destination_mint,
        ) {
            Some(account) => account,
            None => {
                return Err(SwapError::NoFeeAccount);
            },
        };
        let manager_fee_account = match Self::fee_account(
            &self.fund_state.manager,
            &swap_params.destination_mint,
        ) {
            Some(account) => account,
            None => {
                return Err(SwapError::NoFeeAccount);
            },
        };
        let account_metas = self.swap_account_metas(
            swap_params,
            from_token_id,
            to_token_id,
            swap_fee_account,
            host_fee_account,
            manager_fee_account,
        );
        Ok(
            SwapAndAccountMetas {
                swap: Swap::TokenSwap,
                arguments: SwapArguments {
                    instruction_id: SYMMETRY_PROGRAM_SWAP_INSTRUCTION_ID,
                    from_token_id: from_token_id as u64,
                    to_token_id: to_token_id as u64,
                    in_amount: swap_params.in_amount,
                    minimum_amount_out: 0,
                },
                account_metas,
            },
        )
    }
}

} // verus!
