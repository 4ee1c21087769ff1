use vstd::prelude::*;
use crate::pagination::{WirePageRequest, WirePageResponse};
use crate::types::{
    Coin, DepositRecord, LimitOrderTrancheKey, Params, Pool, PoolMetadata, PoolReserves,
    TradePairID,
};

verus! {

// ---------------------------------------------------------------------------
// Wire-request shapes
// ---------------------------------------------------------------------------

/// Wire request for the module parameters.
#[derive(Clone, Debug, PartialEq, Eq)]
pub struct QueryParamsRequest {}

/// Wire request for one user's record in one tranche.
#[derive(Clone, Debug, PartialEq, Eq)]
pub struct QueryGetLimitOrderTrancheUserRequest {
    pub address: String,
    pub tranche_key: String,
}

/// Wire request for all tranche-user records.
#[derive(Clone, Debug, PartialEq, Eq)]
pub struct QueryAllLimitOrderTrancheUserRequest {
    pub pagination: Option<WirePageRequest>,
}

/// Wire request for all limit orders of one address.
#[derive(Clone, Debug, PartialEq, Eq)]
pub struct QueryAllUserLimitOrdersRequest {
    pub address: String,
    pub pagination: Option<WirePageRequest>,
}

/// Wire request for one active tranche.
#[derive(Clone, Debug, PartialEq, Eq)]
pub struct QueryGetLimitOrderTrancheRequest {
    pub pair_id: String,
    pub tick_index: i64,
    pub token_in: String,
    pub tranche_key: String,
}

/// Wire request for all active tranches of a pair.
#[derive(Clone, Debug, PartialEq, Eq)]
pub struct QueryAllLimitOrderTrancheRequest {
    pub pair_id: String,
    pub token_in: String,
    pub pagination: Option<WirePageRequest>,
}

/// Wire request for all deposits of one address.
#[derive(Clone, Debug, PartialEq, Eq)]
pub struct QueryAllUserDepositsRequest {
    pub address: String,
    pub pagination: Option<WirePageRequest>,
}

/// Wire request for all tick liquidity of a pair.
#[derive(Clone, Debug, PartialEq, Eq)]
pub struct QueryAllTickLiquidityRequest {
    pub pair_id: String,
    pub token_in: String,
    pub pagination: Option<WirePageRequest>,
}

/// Wire request for one inactive tranche.
#[derive(Clone, Debug, PartialEq, Eq)]
pub struct QueryGetInactiveLimitOrderTrancheRequest {
    pub pair_id: String,
    pub token_in: String,
    pub tick_index: i64,
    pub tranche_key: String,
}

/// Wire request for all inactive tranches.
#[derive(Clone, Debug, PartialEq, Eq)]
pub struct QueryAllInactiveLimitOrderTrancheRequest {
    pub pagination: Option<WirePageRequest>,
}

/// Wire request for all pool reserves of a pair.
#[derive(Clone, Debug, PartialEq, Eq)]
pub struct QueryAllPoolReservesRequest {
    pub pair_id: String,
    pub token_in: String,
    pub pagination: Option<WirePageRequest>,
}

/// Wire request for one pool-reserves record.
#[derive(Clone, Debug, PartialEq, Eq)]
pub struct QueryGetPoolReservesRequest {
    pub pair_id: String,
    pub token_in: String,
    pub tick_index: i64,
    pub fee: u64,
}

/// One named hop route of a multi-hop swap: the token sequence of the route.
#[derive(Clone, Debug, PartialEq, Eq)]
pub struct MultiHopRoute {
    pub hops: Vec<String>,
}

/// Wire request for a multi-hop swap estimate.
#[derive(Clone, Debug, PartialEq, Eq)]
pub struct QueryEstimateMultiHopSwapRequest {
    pub creator: String,
    pub receiver: String,
    pub routes: Vec<MultiHopRoute>,
    pub amount_in: String,
    pub exit_limit_price: String,
    pub pick_best_route: bool,
}

/// The wire protocol's timestamp representation: whole seconds since the
/// epoch plus a nanosecond remainder.
#[derive(Clone, Copy, Debug, PartialEq, Eq, Structural)]
pub struct Timestamp {
    pub seconds: i64,
    pub nanos: i32,
}

/// Wire request for a limit-order placement estimate.
#[derive(Clone, Debug, PartialEq, Eq)]
pub struct QueryEstimatePlaceLimitOrderRequest {
    pub creator: String,
    pub receiver: String,
    pub token_in: String,
    pub token_out: String,
    pub tick_index_in_to_out: i64,
    pub amount_in: String,
    pub order_type: i32,
    pub expiration_time: Option<Timestamp>,
    pub max_amount_out: String,
}

/// Wire request for one pool by pair, tick, and fee.
#[derive(Clone, Debug, PartialEq, Eq)]
pub struct QueryPoolRequest {
    pub pair_id: String,
    pub tick_index: i64,
    pub fee: u64,
}

/// Wire request for one pool by id.
#[derive(Clone, Copy, Debug, PartialEq, Eq, Structural)]
pub struct QueryPoolByIdRequest {
    pub pool_id: u64,
}

/// Wire request for one pool's metadata.
#[derive(Clone, Copy, Debug, PartialEq, Eq, Structural)]
pub struct QueryGetPoolMetadataRequest {
    pub id: u64,
}

/// Wire request for all pool metadata.
#[derive(Clone, Debug, PartialEq, Eq)]
pub struct QueryAllPoolMetadataRequest {
    pub pagination: Option<WirePageRequest>,
}

/// Wire shape of per-deposit options.
#[derive(Clone, Copy, Debug, PartialEq, Eq, Structural)]
pub struct DepositOptions {
    pub disable_autoswap: bool,
}

// ---------------------------------------------------------------------------
// Wire-response shapes
// ---------------------------------------------------------------------------

/// Wire shape of one user's stake in a tranche: the order type arrives as a
/// raw integer code.
#[derive(Clone, Debug, PartialEq, Eq)]
pub struct LimitOrderTrancheUser {
    pub trade_pair_id: TradePairID,
    pub tick_index_taker_to_maker: i64,
    pub tranche_key: String,
    pub address: String,
    pub shares_owned: i128,
    pub shares_withdrawn: i128,
    pub shares_cancelled: i128,
    pub order_type: i32,
}

/// Wire shape of one tranche: the expiration arrives as a raw optional
/// timestamp string, sentinel included.
#[derive(Clone, Debug, PartialEq, Eq)]
pub struct LimitOrderTranche {
    pub key: LimitOrderTrancheKey,
    pub reserves_maker_denom: i128,
    pub reserves_taker_denom: i128,
    pub total_maker_denom: i128,
    pub total_taker_denom: i128,
    pub expiration_time: Option<String>,
    pub price_taker_to_maker: String,
}

/// Wire shape of one tick-liquidity element: the two possible payloads
/// stand side by side, and the protocol owes exactly one of them.
#[derive(Clone, Debug, PartialEq, Eq)]
pub struct TickLiquidity {
    pub pool_reserves: Option<PoolReserves>,
    pub limit_order_tranche: Option<LimitOrderTranche>,
}

/// Wire response carrying the module parameters.
#[derive(Clone, Debug, PartialEq, Eq)]
pub struct QueryParamsResponse {
    pub params: Params,
}

/// Wire response carrying one optional tranche-user record.
#[derive(Clone, Debug, PartialEq, Eq)]
pub struct QueryGetLimitOrderTrancheUserResponse {
    pub limit_order_tranche_user: Option<LimitOrderTrancheUser>,
}

/// Wire response listing tranche-user records.
#[derive(Clone, Debug, PartialEq, Eq)]
pub struct QueryAllLimitOrderTrancheUserResponse {
    pub limit_order_tranche_user: Vec<LimitOrderTrancheUser>,
    pub pagination: Option<WirePageResponse>,
}

/// Wire response listing one address's limit orders.
#[derive(Clone, Debug, PartialEq, Eq)]
pub struct QueryAllUserLimitOrdersResponse {
    pub limit_orders: Vec<LimitOrderTrancheUser>,
    pub pagination: Option<WirePageResponse>,
}

/// Wire response carrying one optional active tranche.
#[derive(Clone, Debug, PartialEq, Eq)]
pub struct QueryGetLimitOrderTrancheResponse {
    pub limit_order_tranche: Option<LimitOrderTranche>,
}

/// Wire response listing active tranches.
#[derive(Clone, Debug, PartialEq, Eq)]
pub struct QueryAllLimitOrderTrancheResponse {
    pub limit_order_tranche: Vec<LimitOrderTranche>,
    pub pagination: Option<WirePageResponse>,
}

/// Wire response listing one address's deposits.
#[derive(Clone, Debug, PartialEq, Eq)]
pub struct QueryAllUserDepositsResponse {
    pub deposits: Vec<DepositRecord>,
    pub pagination: Option<WirePageResponse>,
}

/// Wire response listing tick liquidity.
#[derive(Clone, Debug, PartialEq, Eq)]
pub struct QueryAllTickLiquidityResponse {
    pub tick_liquidity: Vec<TickLiquidity>,
    pub pagination: Option<WirePageResponse>,
}

/// Wire response carrying one inactive tranche.
#[derive(Clone, Debug, PartialEq, Eq)]
pub struct QueryGetInactiveLimitOrderTrancheResponse {
    pub inactive_limit_order_tranche: LimitOrderTranche,
}

/// Wire response listing inactive tranches.
#[derive(Clone, Debug, PartialEq, Eq)]
pub struct QueryAllInactiveLimitOrderTrancheResponse {
    pub inactive_limit_order_tranche: Vec<LimitOrderTranche>,
    pub pagination: Option<WirePageResponse>,
}

/// Wire response listing pool reserves.
#[derive(Clone, Debug, PartialEq, Eq)]
pub struct QueryAllPoolReservesResponse {
    pub pool_reserves: Vec<PoolReserves>,
    pub pagination: Option<WirePageResponse>,
}

/// Wire response carrying one pool-reserves record.
#[derive(Clone, Debug, PartialEq, Eq)]
pub struct QueryGetPoolReservesResponse {
    pub pool_reserves: PoolReserves,
}

/// Wire response of a multi-hop swap estimate.
#[derive(Clone, Debug, PartialEq, Eq)]
pub struct QueryEstimateMultiHopSwapResponse {
    pub coin_out: Coin,
}

/// Wire response of a limit-order placement estimate.
#[derive(Clone, Debug, PartialEq, Eq)]
pub struct QueryEstimatePlaceLimitOrderResponse {
    pub total_in_coin: Coin,
    pub swap_in_coin: Coin,
    pub swap_out_coin: Coin,
}

/// Wire response carrying one pool.
#[derive(Clone, Debug, PartialEq, Eq)]
pub struct QueryPoolResponse {
    pub pool: Pool,
}

/// Wire response carrying one pool's metadata.
#[derive(Clone, Debug, PartialEq, Eq)]
pub struct QueryGetPoolMetadataResponse {
    pub pool_metadata: PoolMetadata,
}

/// Wire response listing pool metadata.
#[derive(Clone, Debug, PartialEq, Eq)]
pub struct QueryAllPoolMetadataResponse {
    pub pool_metadata: Vec<PoolMetadata>,
    pub pagination: Option<WirePageResponse>,
}

} // verus!
