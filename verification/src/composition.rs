//! Reading the snapshot: which token a mint names, where the pool holds it,
//! and what the pool is worth.
use vstd::prelude::*;
use crate::accounts::Address;
use crate::accounts::Holding;
use crate::accounts::TokenSettings;
use crate::errors::QuoteError;
use crate::errors::TradeSide;
use crate::fixed_point::spec_amount_to_usd_value;
use crate::token_swap::SymmetryTokenSwap;
use crate::weights::thresholds_in_range;

verus! {

/// The first place at or after `from` at which `list` holds a token minted at `mint`.
pub open spec fn token_id_from(list: Seq<TokenSettings>, mint: Seq<u8>, from: int) -> Option<int>
    decreases list.len() - from,
{
    if from < 0 || from >= list.len() {
        None
    } else if list[from].token_mint@ == mint {
        Some(from)
    } else {
        token_id_from(list, mint, from + 1)
    }
}

/// The identifier of the token minted at `mint`: its first place in `list`.
pub open spec fn token_id_of(list: Seq<TokenSettings>, mint: Seq<u8>) -> Option<int> {
    token_id_from(list, mint, 0)
}

/// The first place at or after `from` at which `composition` holds `token`.
pub open spec fn holding_index_from(composition: Seq<Holding>, token: int, from: int) -> Option<
    int,
>
    decreases composition.len() - from,
{
    if from < 0 || from >= composition.len() {
        None
    } else if composition[from].token == token {
        Some(from)
    } else {
        holding_index_from(composition, token, from + 1)
    }
}

/// The place of `token` in `composition`.
pub open spec fn holding_index_of(composition: Seq<Holding>, token: int) -> Option<int> {
    holding_index_from(composition, token, 0)
}

/// A token found from `from` on stands in the list, at or after `from`,
/// carries the mint, and is the first to do so.
pub proof fn lemma_token_id_from(list: Seq<TokenSettings>, mint: Seq<u8>, from: int)
    requires
        0 <= from,
    ensures
        match token_id_from(list, mint, from) {
            Some(id) => from <= id < list.len() && list[id].token_mint@ == mint && forall|j: int|
                from <= j < id ==> list[j].token_mint@ != mint,
            None => forall|j: int| from <= j < list.len() ==> list[j].token_mint@ != mint,
        },
    decreases list.len() - from,
{
    if from < list.len() && list[from].token_mint@ != mint {
        lemma_token_id_from(list, mint, from + 1);
    }
}

/// A holding found from `from` on stands in the composition, at or after
/// `from`, is of the token, and is the first to be so.
pub proof fn lemma_holding_index_from(composition: Seq<Holding>, token: int, from: int)
    requires
        0 <= from,
    ensures
        match holding_index_from(composition, token, from) {
            Some(index) => from <= index < composition.len() && composition[index].token == token
                && forall|j: int| from <= j < index ==> composition[j].token != token,
            None => forall|j: int| from <= j < composition.len() ==> composition[j].token != token,
        },
    decreases composition.len() - from,
{
    if from < composition.len() && composition[from].token != token {
        lemma_holding_index_from(composition, token, from + 1);
    }
}

/// The USD value of one holding at the middle price of its token.
pub open spec fn holding_worth(holding: Holding, list: Seq<TokenSettings>) -> nat {
    let settings = list[holding.token as int];
    spec_amount_to_usd_value(
        holding.amount as nat,
        settings.decimals as nat,
        settings.oracle_price.avg_price as nat,
    )
}

/// The USD value of the first `n` holdings together.
pub open spec fn worth_of_first(composition: Seq<Holding>, list: Seq<TokenSettings>, n: int) -> nat
    decreases n,
{
    if n <= 0 {
        0
    } else {
        worth_of_first(composition, list, n - 1) + holding_worth(composition[n - 1], list)
    }
}

/// The USD value of everything that the pool holds.
pub open spec fn spec_fund_worth(composition: Seq<Holding>, list: Seq<TokenSettings>) -> nat {
    worth_of_first(composition, list, composition.len() as int)
}

/// Whether the price feed of every asset that the pool holds is live.
pub open spec fn all_oracles_live(composition: Seq<Holding>, list: Seq<TokenSettings>) -> bool {
    forall|i: int|
        0 <= i < composition.len() ==> (#[trigger] list[composition[i].token as int]).oracle_price.oracle_live
}

/// The two assets of a trade: their identifiers in the token list and their
/// places in the pool's composition.
#[derive(Clone, Copy, Debug)]
pub struct TradeLegs {
    pub from_token_id: usize,
    pub to_token_id: usize,
    pub from_index: usize,
    pub to_index: usize,
}

impl SymmetryTokenSwap {
    /// Every asset that the pool holds is a supported token with valid
    /// settings; the fee recipients take no more than the whole fee; and the
    /// band of allowed weights is defined.
    pub open spec fn wf(&self) -> bool {
        &&& forall|i: int|
            0 <= i < self.fund_state.composition@.len() ==> {
                &&& (#[trigger] self.fund_state.composition@[i]).token < self.token_list.list@.len()
                &&& self.token_list.list@[self.fund_state.composition@[i].token as int].wf()
            }
        &&& self.token_list.fee_recipients.wf()
        &&& thresholds_in_range(
            self.fund_state.rebalance_threshold as nat,
            self.fund_state.lp_offset_threshold as nat,
        )
    }

    /// Whether the snapshot is well-formed.
    pub fn is_wf(&self) -> (r: bool)
        ensures
            r == self.wf(),
    {
        let n = self.fund_state.composition.len();
        let mut i: usize = 0;
        while i < n
            invariant
                i <= n,
                n == self.fund_state.composition@.len(),
                forall|j: int|
                    0 <= j < i ==> {
                        &&& (#[trigger] self.fund_state.composition@[j]).token
                            < self.token_list.list@.len()
                        &&& self.token_list.list@[self.fund_state.composition@[j].token as int].wf()
                    },
            decreases n - i,
        {
            let token: u64 = self.fund_state.composition[i].token;
            if token >= self.token_list.list.len() as u64 {
                return false;
            }
            if !self.token_list.list[token as usize].is_wf() {
                return false;
            }
            i = i + 1;
        }
        if !self.token_list.fee_recipients.is_wf() {
            return false;
        }
        let product = self.fund_state.rebalance_threshold.checked_mul(
            self.fund_state.lp_offset_threshold,
        );
        match product {
            Some(offset) => offset <= 100_000_000,
            None => false,
        }
    }

    /// The identifier of the token minted at `mint`, if the list holds one.
    pub fn find_token(&self, mint: &Address) -> (r: Option<usize>)
        ensures
            match r {
                Some(id) => token_id_of(self.token_list.list@, mint@) == Some(id as int),
                None => token_id_of(self.token_list.list@, mint@) is None,
            },
    {
        let n = self.token_list.list.len();
        let mut i: usize = 0;
        while i < n
            invariant
                i <= n,
                n == self.token_list.list@.len(),
                token_id_of(self.token_list.list@, mint@) == token_id_from(
                    self.token_list.list@,
                    mint@,
                    i as int,
                ),
            decreases n - i,
        {
            if self.token_list.list[i].token_mint.same(mint) {
                return Some(i);
            }
            i = i + 1;
        }
        None
    }

    /// The place in the composition at which the pool holds `token`, if it does.
    pub fn find_holding(&self, token: usize) -> (r: Option<usize>)
        ensures
            match r {
                Some(index) => holding_index_of(self.fund_state.composition@, token as int) == Some(
                    index as int,
                ),
                None => holding_index_of(self.fund_state.composition@, token as int) is None,
            },
    {
        let n = self.fund_state.composition.len();
        let mut i: usize = 0;
        while i < n
            invariant
                i <= n,
                n == self.fund_state.composition@.len(),
                holding_index_of(self.fund_state.composition@, token as int) == holding_index_from(
                    self.fund_state.composition@,
                    token as int,
                    i as int,
                ),
            decreases n - i,
        {
            if self.fund_state.composition[i].token == token as u64 {
                return Some(i);
            }
            i = i + 1;
        }
        None
    }

    /// The two assets of a trade, or the first reason for which one of them
    /// cannot be traded: both must be supported before either is looked up
    /// in the composition, and the asset taken in is looked at first.
    pub open spec fn spec_resolve(&self, input_mint: Seq<u8>, output_mint: Seq<u8>) -> Result<
        TradeLegs,
        QuoteError,
    > {
        let list = self.token_list.list@;
        let composition = self.fund_state.composition@;
        match token_id_of(list, input_mint) {
            None => Err(QuoteError::AssetNotSupported(TradeSide::From)),
            Some(from_id) => match token_id_of(list, output_mint) {
                None => Err(QuoteError::AssetNotSupported(TradeSide::To)),
                Some(to_id) => match holding_index_of(composition, from_id) {
                    None => Err(QuoteError::AssetNotInComposition(TradeSide::From)),
                    Some(from_index) => match holding_index_of(composition, to_id) {
                        None => Err(QuoteError::AssetNotInComposition(TradeSide::To)),
                        Some(to_index) => Ok(
                            TradeLegs {
                                from_token_id: from_id as usize,
                                to_token_id: to_id as usize,
                                from_index: from_index as usize,
                                to_index: to_index as usize,
                            },
                        ),
                    },
                },
            },
        }
    }

    /// Finds the two assets of a trade.
    pub fn resolve(&self, input_mint: &Address, output_mint: &Address) -> (r: Result<
        TradeLegs,
        QuoteError,
    >)
        ensures
            r == self.spec_resolve(input_mint@, output_mint@),
            r matches Ok(legs) ==> self.legs_valid(legs),
    {
        proof {
            lemma_token_id_from(self.token_list.list@, input_mint@, 0);
            lemma_token_id_from(self.token_list.list@, output_mint@, 0);
        }
        let from_token_id = match self.find_token(input_mint) {
            Some(id) => id,
            None => {
                return Err(QuoteError::AssetNotSupported(TradeSide::From));
            },
        };
        let to_token_id = match self.find_token(output_mint) {
            Some(id) => id,
            None => {
                return Err(QuoteError::AssetNotSupported(TradeSide::To));
            },
        };
        proof {
            lemma_holding_index_from(self.fund_state.composition@, from_token_id as int, 0);
            lemma_holding_index_from(self.fund_state.composition@, to_token_id as int, 0);
        }
        let from_index = match self.find_holding(from_token_id) {
            Some(index) => index,
            None => {
                return Err(QuoteError::AssetNotInComposition(TradeSide::From));
            },
        };
        let to_index = match self.find_holding(to_token_id) {
            Some(index) => index,
            None => {
                return Err(QuoteError::AssetNotInComposition(TradeSide::To));
            },
        };
        Ok(TradeLegs { from_token_id, to_token_id, from_index, to_index })
    }

    /// The legs name two tokens of the list at the places where the pool holds them.
    pub open spec fn legs_valid(&self, legs: TradeLegs) -> bool {
        &&& legs.from_token_id < self.token_list.list@.len()
        &&& legs.to_token_id < self.token_list.list@.len()
        &&& legs.from_index < self.fund_state.composition@.len()
        &&& legs.to_index < self.fund_state.composition@.len()
        &&& self.fund_state.composition@[legs.from_index as int].token == legs.from_token_id
        &&& self.fund_state.composition@[legs.to_index as int].token == legs.to_token_id
    }

    /// Whether the price feed of every asset that the pool holds is live.
    pub fn oracles_live(&self) -> (r: bool)
        requires
            self.wf(),
        ensures
            r == all_oracles_live(self.fund_state.composition@, self.token_list.list@),
    {
        let n = self.fund_state.composition.len();
        let tokens = self.token_list.list.len();
        let mut i: usize = 0;
        while i < n
            invariant
                i <= n,
                n == self.fund_state.composition@.len(),
                tokens == self.token_list.list@.len(),
                self.wf(),
                forall|j: int|
                    0 <= j < i ==> (#[trigger] self.token_list.list@[
                        self.fund_state.composition@[j].token as int
                    ]).oracle_price.oracle_live,
            decreases n - i,
        {
            assert(self.fund_state.composition@[i as int].token < self.token_list.list@.len());
            let token = self.fund_state.composition[i].token as usize;
            if !self.token_list.list[token].oracle_price.oracle_live {
                return false;
            }
            i = i + 1;
        }
        true
    }

    /// The USD value of everything that the pool holds; `None` where it does
    /// not fit in a `u64`.
    pub fn fund_worth(&self) -> (r: Option<u64>)
        requires
            self.wf(),
        ensures
            r == (if spec_fund_worth(self.fund_state.composition@, self.token_list.list@)
                <= u64::MAX {
                Some(spec_fund_worth(self.fund_state.composition@, self.token_list.list@) as u64)
            } else {
                None
            }),
    {
        let n = self.fund_state.composition.len();
        let tokens = self.token_list.list.len();
        let mut worth: u64 = 0;
        let mut i: usize = 0;
        while i < n
            invariant
                i <= n,
                n == self.fund_state.composition@.len(),
                tokens == self.token_list.list@.len(),
                self.wf(),
                worth == worth_of_first(
                    self.fund_state.composition@,
                    self.token_list.list@,
                    i as int,
                ),
            decreases n - i,
        {
            assert(self.fund_state.composition@[i as int].token < self.token_list.list@.len());
            let holding = self.fund_state.composition[i];
            let settings = self.token_list.list[holding.token as usize];
            let value = Self::amount_to_usd_value(
                holding.amount,
                settings.decimals,
                settings.oracle_price.avg_price,
            );
            match worth.checked_add(value) {
                Some(sum) => {
                    worth = sum;
                },
                None => {
                    proof {
                        lemma_worth_grows(
                            self.fund_state.composition@,
                            self.token_list.list@,
                            i as int + 1,
                            n as int,
                        );
                    }
                    return None;
                },
            }
            i = i + 1;
        }
        Some(worth)
    }
}

/// The worth of more holdings is no less.
pub proof fn lemma_worth_grows(
    composition: Seq<Holding>,
    list: Seq<TokenSettings>,
    m: int,
    n: int,
)
    requires
        m <= n,
    ensures
        worth_of_first(composition, list, m) <= worth_of_first(composition, list, n),
    decreases n - m,
{
    if m < n {
        lemma_worth_grows(composition, list, m, n - 1);
    }
}

/// The legs that a trade resolves to name two tokens of the list at the
/// places where the pool holds them.
pub proof fn lemma_resolved_legs_valid(
    pool: SymmetryTokenSwap,
    input_mint: Seq<u8>,
    output_mint: Seq<u8>,
)
    ensures
        pool.spec_resolve(input_mint, output_mint) matches Ok(legs) ==> pool.legs_valid(legs),
{
    let list = pool.token_list.list@;
    let composition = pool.fund_state.composition@;
    assert(pool.token_list.list.len() == list.len());
    assert(pool.fund_state.composition.len() == composition.len());
    lemma_token_id_from(list, input_mint, 0);
    lemma_token_id_from(list, output_mint, 0);
    if token_id_of(list, input_mint) is Some && token_id_of(list, output_mint) is Some {
        lemma_holding_index_from(composition, token_id_of(list, input_mint)->0, 0);
        lemma_holding_index_from(composition, token_id_of(list, output_mint)->0, 0);
    }
}

} // verus!
