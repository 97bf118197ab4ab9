//! The pool snapshot: settings, prices, curves and composition, as plain values.
use vstd::prelude::*;

verus! {

/// Number of points in one price curve.
pub const NUM_OF_POINTS_IN_CURVE_DATA: usize = 10;

/// Divider of the trading fee tiers and of the rebalancing thresholds.
pub const BPS_DIVIDER: u64 = 10000;

/// The weight of the whole pool.
pub const WEIGHT_MULTIPLIER: u64 = 10000;

/// Divider of the fee recipients' shares.
pub const FEE_SHARE_DIVIDER: u64 = 100;

/// Largest decimal exponent whose power of ten fits in a `u64`.
pub const MAX_DECIMALS: u8 = 19;

/// Identifier, in the token list, of the pool's base asset.
pub const BASE_TOKEN_ID: u64 = 0;

/// A 32-byte account address.
#[derive(Clone, Copy, Debug)]
pub struct Address {
    pub bytes: [u8; 32],
}

impl View for Address {
    type V = Seq<u8>;

    open spec fn view(&self) -> Seq<u8> {
        self.bytes@
    }
}

/// The address of 32 zero bytes, which stands for "no account".
pub open spec fn no_address() -> Seq<u8> {
    Seq::new(32, |i: int| 0u8)
}

impl Address {
    /// The address of 32 zero bytes.
    pub fn default() -> (r: Address)
        ensures
            r@ == no_address(),
    {
        let r = Address { bytes: [0u8; 32] };
        assert(r@ =~= no_address());
        r
    }

    /// Whether two addresses hold the same bytes.
    pub fn same(&self, other: &Address) -> (r: bool)
        ensures
            r == (self@ == other@),
    {
        let mut i: usize = 0;
        while i < 32
            invariant
                i <= 32,
                forall|j: int| 0 <= j < i ==> self.bytes@[j] == other.bytes@[j],
            decreases 32 - i,
        {
            if self.bytes[i] != other.bytes[i] {
                return false;
            }
            i = i + 1;
        }
        assert(self@ =~= other@);
        true
    }

    /// Whether this is the address of 32 zero bytes.
    pub fn is_default(&self) -> (r: bool)
        ensures
            r == (self@ == no_address()),
    {
        let zero = Address::default();
        self.same(&zero)
    }
}

/// The price of one whole token, as the oracle last gave it.
#[derive(Clone, Copy, Debug)]
pub struct OraclePrice {
    /// What the pool pays for a token that it takes in.
    pub sell_price: u64,
    /// What the pool asks for a token that it hands out.
    pub buy_price: u64,
    /// The middle price, by which holdings are valued.
    pub avg_price: u64,
    /// Whether the feed is live.
    pub oracle_live: bool,
}

/// What the pool knows of one token that it supports.
#[derive(Clone, Copy, Debug)]
pub struct TokenSettings {
    /// The mint of the token.
    pub token_mint: Address,
    /// The decimal places of one whole token: it is `10^decimals` raw units.
    pub decimals: u8,
    /// The account in which the pools keep the token.
    pub pda_token_account: Address,
    /// The account of the token's price feed, or the zero address.
    pub oracle_account: Address,
    /// The price as it was last read.
    pub oracle_price: OraclePrice,
    /// Fee, in basis points, on what moves the holding towards its target.
    pub token_swap_fee_before_tw_bps: u16,
    /// Fee, in basis points, on what moves the holding past its target.
    pub token_swap_fee_after_tw_bps: u16,
    /// Whether the price curve is honoured, or the oracle price alone.
    pub use_curve_data: bool,
    /// Whether the token can be traded against the pool.
    pub lp_on: bool,
}

impl TokenSettings {
    /// The power of ten of the decimals fits in a `u64`, and no fee tier
    /// takes more than the whole.
    pub open spec fn wf(&self) -> bool {
        &&& self.decimals <= MAX_DECIMALS
        &&& self.token_swap_fee_before_tw_bps <= BPS_DIVIDER
        &&& self.token_swap_fee_after_tw_bps <= BPS_DIVIDER
    }

    /// Whether the settings are valid.
    pub fn is_wf(&self) -> (r: bool)
        ensures
            r == self.wf(),
    {
        self.decimals <= MAX_DECIMALS && self.token_swap_fee_before_tw_bps as u64 <= BPS_DIVIDER
            && self.token_swap_fee_after_tw_bps as u64 <= BPS_DIVIDER
    }
}

/// One price curve: step `i` spans `amount[i]` raw units and lists `price[i]`.
#[derive(Clone, Copy, Debug)]
pub struct TokenPriceData {
    pub amount: [u64; NUM_OF_POINTS_IN_CURVE_DATA],
    pub price: [u64; NUM_OF_POINTS_IN_CURVE_DATA],
}

/// One step of a curve: how many raw units it spans, and the price listed for it.
pub struct CurveStep {
    pub amount: nat,
    pub price: nat,
}

impl View for TokenPriceData {
    type V = Seq<CurveStep>;

    open spec fn view(&self) -> Seq<CurveStep> {
        Seq::new(
            NUM_OF_POINTS_IN_CURVE_DATA as nat,
            |i: int| CurveStep { amount: self.amount@[i] as nat, price: self.price@[i] as nat },
        )
    }
}

/// The curve whose every step spans nothing and lists the price zero.
pub open spec fn flat_curve() -> Seq<CurveStep> {
    Seq::new(NUM_OF_POINTS_IN_CURVE_DATA as nat, |i: int| CurveStep { amount: 0, price: 0 })
}

impl TokenPriceData {
    /// The curve whose every step spans nothing and lists the price zero.
    pub fn flat() -> (r: TokenPriceData)
        ensures
            r@ == flat_curve(),
    {
        let r = TokenPriceData {
            amount: [0u64; NUM_OF_POINTS_IN_CURVE_DATA],
            price: [0u64; NUM_OF_POINTS_IN_CURVE_DATA],
        };
        assert(r@ =~= flat_curve());
        r
    }
}

/// Shares of the collected fee, each in hundredths, that leave the pool.
#[derive(Clone, Copy, Debug)]
pub struct FeeRecipients {
    /// The protocol's share.
    pub symmetry_bps: u64,
    /// The share of the host that referred the trade.
    pub host_bps: u64,
    /// The share of the pool's manager.
    pub manager_bps: u64,
}

impl FeeRecipients {
    /// The three shares together take no more than the whole fee.
    pub open spec fn wf(&self) -> bool {
        self.symmetry_bps + self.host_bps + self.manager_bps <= FEE_SHARE_DIVIDER
    }

    /// Whether the shares are valid.
    pub fn is_wf(&self) -> (r: bool)
        ensures
            r == self.wf(),
    {
        self.symmetry_bps <= FEE_SHARE_DIVIDER && self.host_bps <= FEE_SHARE_DIVIDER
            && self.manager_bps <= FEE_SHARE_DIVIDER && self.symmetry_bps + self.host_bps
            + self.manager_bps <= FEE_SHARE_DIVIDER
    }
}

/// The tokens that the protocol supports. A token's identifier is its place in `list`.
pub struct TokenList {
    pub list: Vec<TokenSettings>,
    pub fee_recipients: FeeRecipients,
}

/// One asset that the pool holds.
#[derive(Clone, Copy, Debug)]
pub struct Holding {
    /// The asset's identifier in the token list.
    pub token: u64,
    /// Raw units held.
    pub amount: u64,
    /// The share of the pool's value that the asset is meant to have, over `weight_sum`.
    pub target_weight: u64,
}

/// The pool's composition and its rebalancing rules.
pub struct FundState {
    /// The pool's manager.
    pub manager: Address,
    /// The host through which the pool was made.
    pub host_pubkey: Address,
    /// The assets that the pool holds, in its own order.
    pub composition: Vec<Holding>,
    /// The sum of the target weights.
    pub weight_sum: u64,
    /// How far a weight may stray from its target before the pool
    /// rebalances, in basis points of the target.
    pub rebalance_threshold: u64,
    /// The part of that distance that a trade may use, in basis points.
    pub lp_offset_threshold: u64,
    /// Whether the manager has closed the pool to trades.
    pub lp_disabled: bool,
}

/// The price curves of every token, by token identifier, one for each direction.
/// A token without an entry has the flat curve.
pub struct CurveData {
    pub buy: Vec<TokenPriceData>,
    pub sell: Vec<TokenPriceData>,
}

/// The curve of `token` in `curves`, flat where none is listed.
pub open spec fn curve_of(curves: Seq<TokenPriceData>, token: int) -> Seq<CurveStep> {
    if 0 <= token < curves.len() {
        curves[token]@
    } else {
        flat_curve()
    }
}

impl CurveData {
    /// No curve listed for any token.
    pub fn empty() -> (r: CurveData)
        ensures
            r.buy@.len() == 0,
            r.sell@.len() == 0,
    {
        CurveData { buy: Vec::new(), sell: Vec::new() }
    }

    /// The curve along which the pool takes `token` in.
    pub fn sell_curve(&self, token: usize) -> (r: TokenPriceData)
        ensures
            r@ == curve_of(self.sell@, token as int),
    {
        if token < self.sell.len() {
            self.sell[token]
        } else {
            TokenPriceData::flat()
        }
    }

    /// The curve along which the pool hands `token` out.
    pub fn buy_curve(&self, token: usize) -> (r: TokenPriceData)
        ensures
            r@ == curve_of(self.buy@, token as int),
    {
        if token < self.buy.len() {
            self.buy[token]
        } else {
            TokenPriceData::flat()
        }
    }
}

} // verus!
