//! The pricing source itself: one pool, its token list and its curves.
use vstd::prelude::*;
use crate::accounts::no_address;
use crate::accounts::Address;
use crate::accounts::CurveData;
use crate::accounts::FundState;
use crate::accounts::Holding;
use crate::accounts::OraclePrice;
use crate::accounts::TokenList;
use crate::accounts::TokenSettings;
use crate::addresses::address;
use crate::addresses::CURVE_DATA_ADDRESS;
use crate::addresses::SYMMETRY_PROGRAM_ADDRESS;

verus! {

/// A pool of the Symmetry protocol, as a source of quotes.
pub struct SymmetryTokenSwap {
    pub key: Address,
    pub label: String,
    pub fund_state: FundState,
    pub token_list: TokenList,
    pub curve_data: CurveData,
    pub program_id: Address,
}

/// The mints of the first `n` holdings whose token can be traded, in the pool's order.
pub open spec fn reserve_mints_of(composition: Seq<Holding>, list: Seq<TokenSettings>, n: int) -> Seq<
    Address,
>
    decreases n,
{
    if n <= 0 {
        Seq::empty()
    } else {
        let settings = list[composition[n - 1].token as int];
        if settings.lp_on {
            reserve_mints_of(composition, list, n - 1).push(settings.token_mint)
        } else {
            reserve_mints_of(composition, list, n - 1)
        }
    }
}

/// The oracle accounts of the first `n` tokens of the list that have one, in the list's order.
pub open spec fn oracle_accounts_of(list: Seq<TokenSettings>, n: int) -> Seq<Address>
    decreases n,
{
    if n <= 0 {
        Seq::empty()
    } else if list[n - 1].oracle_account@ != no_address() {
        oracle_accounts_of(list, n - 1).push(list[n - 1].oracle_account)
    } else {
        oracle_accounts_of(list, n - 1)
    }
}

/// The settings of the token at place `i` once new prices have come: a
/// token with an oracle account takes the price given for its place, and
/// every other token stays as it is.
pub open spec fn with_new_price(settings: TokenSettings, prices: Seq<OraclePrice>, i: int) -> TokenSettings {
    if settings.oracle_account@ != no_address() && 0 <= i < prices.len() {
        TokenSettings { oracle_price: prices[i], ..settings }
    } else {
        settings
    }
}

/// A copy of a vector of plain values.
pub fn copy_of<T: Copy>(v: &Vec<T>) -> (r: Vec<T>)
    ensures
        r@ == v@,
{
    let mut r: Vec<T> = Vec::new();
    let mut i: usize = 0;
    while i < v.len()
        invariant
            i <= v.len(),
            r@ == v@.subrange(0, i as int),
        decreases v.len() - i,
    {
        r.push(v[i]);
        assert(r@ =~= v@.subrange(0, i as int + 1));
        i = i + 1;
    }
    assert(r@ =~= v@);
    r
}

impl SymmetryTokenSwap {
    /// Every asset that the pool holds is a token of the list.
    pub open spec fn holdings_listed(&self) -> bool {
        forall|i: int|
            0 <= i < self.fund_state.composition@.len() ==> (
            #[trigger] self.fund_state.composition@[i]).token < self.token_list.list@.len()
    }

    /// Whether every asset that the pool holds is a token of the list.
    pub fn are_holdings_listed(&self) -> (r: bool)
        ensures
            r == self.holdings_listed(),
    {
        let n = self.fund_state.composition.len();
        let mut i: usize = 0;
        while i < n
            invariant
                i <= n,
                n == self.fund_state.composition@.len(),
                forall|j: int|
                    0 <= j < i ==> (#[trigger] self.fund_state.composition@[j]).token
                        < self.token_list.list@.len(),
            decreases n - i,
        {
            if self.fund_state.composition[i].token >= self.token_list.list.len() as u64 {
                return false;
            }
            i = i + 1;
        }
        true
    }

    /// Whether two pools are in the same state.
    pub open spec fn same_as(&self, other: &SymmetryTokenSwap) -> bool {
        &&& self.key == other.key
        &&& self.label@ == other.label@
        &&& self.program_id == other.program_id
        &&& self.fund_state.manager == other.fund_state.manager
        &&& self.fund_state.host_pubkey == other.fund_state.host_pubkey
        &&& self.fund_state.composition@ == other.fund_state.composition@
        &&& self.fund_state.weight_sum == other.fund_state.weight_sum
        &&& self.fund_state.rebalance_threshold == other.fund_state.rebalance_threshold
        &&& self.fund_state.lp_offset_threshold == other.fund_state.lp_offset_threshold
        &&& self.fund_state.lp_disabled == other.fund_state.lp_disabled
        &&& self.token_list.list@ == other.token_list.list@
        &&& self.token_list.fee_recipients == other.token_list.fee_recipients
        &&& self.curve_data.buy@ == other.curve_data.buy@
        &&& self.curve_data.sell@ == other.curve_data.sell@
    }

    /// The pool held in the account at `key`, with the state and the token
    /// list as they were read, and no curve yet.
    pub fn from_keyed_account(key: Address, fund_state: FundState, token_list: TokenList) -> (r:
        SymmetryTokenSwap)
        ensures
            r.key == key,
            r.label@ == "Symmetry"@,
            r.fund_state == fund_state,
            r.token_list == token_list,
            r.curve_data.buy@.len() == 0,
            r.curve_data.sell@.len() == 0,
            r.program_id@ == SYMMETRY_PROGRAM_ADDRESS@,
    {
        SymmetryTokenSwap {
            key,
            label: String::from_str("Symmetry"),
            fund_state,
            token_list,
            curve_data: CurveData::empty(),
            program_id: address(SYMMETRY_PROGRAM_ADDRESS),
        }
    }

    /// A second pool in the same state.
    pub fn clone(&self) -> (r: SymmetryTokenSwap)
        ensures
            self.same_as(&r),
    {
        SymmetryTokenSwap {
            key: self.key,
            label: self.label.clone(),
            fund_state: FundState {
                manager: self.fund_state.manager,
                host_pubkey: self.fund_state.host_pubkey,
                composition: copy_of(&self.fund_state.composition),
                weight_sum: self.fund_state.weight_sum,
                rebalance_threshold: self.fund_state.rebalance_threshold,
                lp_offset_threshold: self.fund_state.lp_offset_threshold,
                lp_disabled: self.fund_state.lp_disabled,
            },
            token_list: TokenList {
                list: copy_of(&self.token_list.list),
                fee_recipients: self.token_list.fee_recipients,
            },
            curve_data: CurveData {
                buy: copy_of(&self.curve_data.buy),
                sell: copy_of(&self.curve_data.sell),
            },
            program_id: self.program_id,
        }
    }

    /// The name under which the pool's quotes are shown.
    pub fn label(&self) -> (r: String)
        ensures
            r@ == self.label@,
    {
        self.label.clone()
    }

    /// The program that executes the pool's trades.
    pub fn program_id(&self) -> (r: Address)
        ensures
            r == self.program_id,
    {
        self.program_id
    }

    /// The account that holds the pool's state.
    pub fn key(&self) -> (r: Address)
        ensures
            r == self.key,
    {
        self.key
    }

    /// The mints that can be traded against the pool: those of its holdings
    /// whose token is open to trading, in the pool's order.
    pub fn get_reserve_mints(&self) -> (r: Vec<Address>)
        requires
            self.holdings_listed(),
        ensures
            r@ == reserve_mints_of(
                self.fund_state.composition@,
                self.token_list.list@,
                self.fund_state.composition@.len() as int,
            ),
    {
        let mut mints: Vec<Address> = Vec::new();
        let n = self.fund_state.composition.len();
        let tokens = self.token_list.list.len();
        let mut i: usize = 0;
        while i < n
            invariant
                i <= n,
                n == self.fund_state.composition@.len(),
                tokens == self.token_list.list@.len(),
                self.holdings_listed(),
                mints@ == reserve_mints_of(
                    self.fund_state.composition@,
                    self.token_list.list@,
                    i as int,
                ),
            decreases n - i,
        {
            assert(self.fund_state.composition@[i as int].token < self.token_list.list@.len());
            let token = self.fund_state.composition[i].token as usize;
            if self.token_list.list[token].lp_on {
                mints.push(self.token_list.list[token].token_mint);
            }
            i = i + 1;
        }
        mints
    }

    /// The accounts from which the pool's state is refreshed: the curves,
    /// the pool itself, and the oracle of every token that has one.
    pub fn get_accounts_to_update(&self) -> (r: Vec<Address>)
        ensures
            r@.len() >= 2,
            r@[0]@ == CURVE_DATA_ADDRESS@,
            r@[1] == self.key,
            r@.subrange(2, r@.len() as int) == oracle_accounts_of(
                self.token_list.list@,
                self.token_list.list@.len() as int,
            ),
    {
        let mut accounts: Vec<Address> = Vec::new();
        accounts.push(address(CURVE_DATA_ADDRESS));
        accounts.push(self.key);
        let n = self.token_list.list.len();
        let mut i: usize = 0;
        while i < n
            invariant
                i <= n,
                n == self.token_list.list@.len(),
                accounts@.len() >= 2,
                accounts@[0]@ == CURVE_DATA_ADDRESS@,
                accounts@[1] == self.key,
                accounts@.subrange(2, accounts@.len() as int) == oracle_accounts_of(
                    self.token_list.list@,
                    i as int,
                ),
            decreases n - i,
        {
            if !self.token_list.list[i].oracle_account.is_default() {
                let ghost before = accounts@;
                accounts.push(self.token_list.list[i].oracle_account);
                assert(accounts@.subrange(2, accounts@.len() as int) =~= before.subrange(
                    2,
                    before.len() as int,
                ).push(self.token_list.list@[i as int].oracle_account));
            }
            i = i + 1;
        }
        accounts
    }

    /// Takes in what was read from the accounts: the curves, the pool's
    /// state, and for each token of the list the price that its oracle
    /// gives. A token without an oracle account, or beyond the prices
    /// given, keeps its price.
    pub fn update(
        &mut self,
        curve_data: CurveData,
        fund_state: FundState,
        oracle_prices: &Vec<OraclePrice>,
    )
        ensures
            final(self).key == old(self).key,
            final(self).label == old(self).label,
            final(self).program_id == old(self).program_id,
            final(self).curve_data == curve_data,
            final(self).fund_state == fund_state,
            final(self).token_list.fee_recipients == old(self).token_list.fee_recipients,
            final(self).token_list.list@.len() == old(self).token_list.list@.len(),
            forall|i: int|
                0 <= i < old(self).token_list.list@.len() ==> #[trigger] final(
                    self
                ).token_list.list@[i] == with_new_price(
                    old(self).token_list.list@[i],
                    oracle_prices@,
                    i,
                ),
    {
        self.curve_data = curve_data;
        self.fund_state = fund_state;
        let n = self.token_list.list.len();
        let mut i: usize = 0;
        while i < n
            invariant
                i <= n,
                n == old(self).token_list.list@.len(),
                self.key == old(self).key,
                self.label == old(self).label,
                self.program_id == old(self).program_id,
                self.curve_data == curve_data,
                self.fund_state == fund_state,
                self.token_list.fee_recipients == old(self).token_list.fee_recipients,
                self.token_list.list@.len() == n,
                forall|j: int|
                    0 <= j < i ==> #[trigger] self.token_list.list@[j] == with_new_price(
                        old(self).token_list.list@[j],
                        oracle_prices@,
                        j,
                    ),
                forall|j: int|
                    i <= j < n ==> #[trigger] self.token_list.list@[j] == old(self).token_list.list@[j],
            decreases n - i,
        {
            let mut settings = self.token_list.list[i];
            if !settings.oracle_account.is_default() && i < oracle_prices.len() {
                settings.oracle_price = oracle_prices[i];
                self.token_list.list.set(i, settings);
            }
            i = i + 1;
        }
    }
}

} // verus!
