use vstd::prelude::*;
use crate::order_type::LimitOrderType;

verus! {

/// A directed trading pair: the asset supplied (maker) versus the asset
/// received (taker). Order matters, so a pair and its reverse differ.
#[derive(Clone, Debug, PartialEq, Eq)]
pub struct TradePairID {
    pub maker_denom: String,
    pub taker_denom: String,
}

/// Canonical unordered pair identity used for deposits and pools.
#[derive(Clone, Debug, PartialEq, Eq, Default)]
pub struct PairID {
    pub token0: String,
    pub token1: String,
}

impl PairID {
    /// The two tokens of a well-formed pair are distinct, non-empty
    /// identifiers.
    pub open spec fn well_formed(self) -> bool {
        self.token0@ != self.token1@ && self.token0@.len() > 0 && self.token1@.len() > 0
    }
}

/// Uniquely identifies one order tranche within a trade pair and tick.
#[derive(Clone, Debug, PartialEq, Eq)]
pub struct LimitOrderTrancheKey {
    pub trade_pair_id: TradePairID,
    pub tick_index_taker_to_maker: i64,
    pub tranche_key: String,
}

/// A batch of a limit order's remaining liquidity at one price tick.
///
/// An absent `expiration_time` means the tranche never expires;
/// `price_taker_to_maker` is a decimal with a fixed precision of 26 digits.
#[derive(Clone, Debug, PartialEq, Eq)]
pub struct LimitOrderTranche {
    pub key: LimitOrderTrancheKey,
    pub reserves_maker_denom: i128,
    pub reserves_taker_denom: i128,
    pub total_maker_denom: i128,
    pub total_taker_denom: i128,
    pub expiration_time: Option<i64>,
    pub price_taker_to_maker: String,
}

impl LimitOrderTranche {
    /// In a well-formed tranche the remaining reserves never exceed the
    /// totals on either side: what was consumed is at most what was placed.
    pub open spec fn well_formed(self) -> bool {
        self.reserves_maker_denom <= self.total_maker_denom && self.reserves_taker_denom
            <= self.total_taker_denom
    }
}

/// One user's stake in an order tranche.
#[derive(Clone, Debug, PartialEq, Eq)]
pub struct LimitOrderTrancheUser {
    pub trade_pair_id: TradePairID,
    pub tick_index_taker_to_maker: i64,
    pub tranche_key: String,
    pub address: String,
    pub shares_owned: i128,
    pub shares_withdrawn: i128,
    pub shares_cancelled: i128,
    pub order_type: LimitOrderType,
}

impl LimitOrderTrancheUser {
    /// A well-formed record never accounts for more withdrawn plus
    /// cancelled shares than the user owns.
    pub open spec fn well_formed(self) -> bool {
        self.shares_withdrawn + self.shares_cancelled <= self.shares_owned
    }
}

/// One user deposit of liquidity around a center tick.
#[derive(Clone, Debug, PartialEq, Eq)]
pub struct DepositRecord {
    pub pair_id: PairID,
    pub shares_owned: i128,
    pub center_tick_index: i64,
    pub lower_tick_index: i64,
    pub upper_tick_index: i64,
    pub fee: Option<i64>,
}

impl DepositRecord {
    /// A well-formed deposit's ticks are ordered: lower, then center, then
    /// upper.
    pub open spec fn well_formed(self) -> bool {
        self.lower_tick_index <= self.center_tick_index && self.center_tick_index
            <= self.upper_tick_index
    }
}

/// Identifies one pool-reserves record: a directed pair, a tick, and an
/// optional fee tier.
#[derive(Clone, Debug, PartialEq, Eq)]
pub struct PoolReservesKey {
    pub trade_pair_id: TradePairID,
    pub tick_index_taker_to_maker: i64,
    pub fee: Option<u64>,
}

/// Reserves of one pool side at one tick.
///
/// The two prices are decimals with a fixed precision of 26 digits, one per
/// direction; their reciprocal consistency is the external protocol's own
/// concern and is not re-derived here.
#[derive(Clone, Debug, PartialEq, Eq)]
pub struct PoolReserves {
    pub key: PoolReservesKey,
    pub reserves_maker_denom: i128,
    pub price_taker_to_maker: String,
    pub price_opposite_taker_to_maker: String,
}

/// A pool: two pool-reserves records at adjacent ticks under one id.
#[derive(Clone, Debug, PartialEq, Eq)]
pub struct Pool {
    pub id: u64,
    pub lower_tick0: Option<PoolReserves>,
    pub lower_tick1: Option<PoolReserves>,
}

/// Identifying metadata of one pool: its id, tick, fee tier, and pair.
#[derive(Clone, Debug, PartialEq, Eq, Default)]
pub struct PoolMetadata {
    pub id: u64,
    pub tick: i64,
    pub fee: u64,
    pub pair_id: PairID,
}

/// One element of a tick-liquidity listing: the liquidity at a tick is
/// either a pool-reserves record or a limit-order tranche, never both.
#[derive(Clone, Debug, PartialEq, Eq)]
pub enum Liquidity {
    PoolReserves(PoolReserves),
    LimitOrderTranche(LimitOrderTranche),
}

/// An amount of one denomination.
#[derive(Clone, Debug, PartialEq, Eq)]
pub struct Coin {
    pub denom: String,
    pub amount: u128,
}

/// The exchange module's parameters.
#[derive(Clone, Debug, PartialEq, Eq)]
pub struct Params {
    pub fee_tiers: Vec<u64>,
    pub max_true_taker_spread: String,
}

/// Per-deposit options.
#[derive(Clone, Debug, PartialEq, Eq)]
pub struct DepositOptions {
    pub disable_autoswap: bool,
}

/// The minimum deposit demanded for registering an interchain query.
#[derive(Clone, Debug, PartialEq, Eq)]
pub struct MinInterchainQueryDepositResponse {
    pub query_deposit: Vec<Coin>,
}

} // verus!
