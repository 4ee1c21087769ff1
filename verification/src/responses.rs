use vstd::prelude::*;
use crate::error::NormalizationError;
use crate::normalize::{
    normalize_liquidity_vec, normalize_tranche, normalize_tranche_user, normalize_tranche_user_vec,
    normalize_tranche_vec, spec_normalize_liquidity_seq, spec_normalize_tranche,
    spec_normalize_tranche_seq, spec_normalize_tranche_user, spec_normalize_tranche_user_seq,
};
use crate::pagination::{from_wire as page_from_wire, spec_page_response_from_wire, PageResponse};
use crate::types::{
    Coin, DepositRecord, LimitOrderTranche, LimitOrderTrancheUser, Liquidity, Params, Pool,
    PoolMetadata, PoolReserves,
};
use crate::wire;

verus! {

// ---------------------------------------------------------------------------
// Caller-facing response values, one per supported query kind, each built
// by normalizing the external wire-response value. Raw order-type codes and
// raw expiration strings are decoded, polymorphic liquidity elements are
// tagged, pagination goes through the codec; every other field passes
// through unchanged. A normalizer either returns a fully valid value or
// fails with one typed error, with no partial result and no silent default.
// ---------------------------------------------------------------------------

/// The exchange module's parameters.
#[derive(Clone, Debug, PartialEq, Eq)]
pub struct ParamsResponse {
    pub params: Params,
}

impl ParamsResponse {
    /// Normalizes the parameters response: the payload passes through
    /// unchanged.
    pub fn from_wire(w: wire::QueryParamsResponse) -> (r: ParamsResponse)
        ensures
            r.params == w.params,
    {
        ParamsResponse { params: w.params }
    }
}

/// One user's record in one tranche, when it exists.
#[derive(Clone, Debug, PartialEq, Eq)]
pub struct LimitOrderTrancheUserResponse {
    pub limit_order_tranche_user: Option<LimitOrderTrancheUser>,
}

impl LimitOrderTrancheUserResponse {
    /// The normalized reading of the wire response: an absent record stays
    /// absent, a present one has its order-type code decoded.
    pub open spec fn spec_from_wire(w: wire::QueryGetLimitOrderTrancheUserResponse) -> Result<
        LimitOrderTrancheUserResponse,
        NormalizationError,
    > {
        match w.limit_order_tranche_user {
            Option::None => Ok(
                LimitOrderTrancheUserResponse { limit_order_tranche_user: Option::None },
            ),
            Option::Some(u) => match spec_normalize_tranche_user(u) {
                Err(e) => Err(e),
                Ok(u) => Ok(
                    LimitOrderTrancheUserResponse { limit_order_tranche_user: Option::Some(u) },
                ),
            },
        }
    }

    /// Normalizes the tranche-user response, exactly as
    /// [`LimitOrderTrancheUserResponse::spec_from_wire`] states it.
    pub fn from_wire(w: wire::QueryGetLimitOrderTrancheUserResponse) -> (r: Result<
        LimitOrderTrancheUserResponse,
        NormalizationError,
    >)
        ensures
            r == Self::spec_from_wire(w),
    {
        match w.limit_order_tranche_user {
            None => Ok(LimitOrderTrancheUserResponse { limit_order_tranche_user: None }),
            Some(u) => match normalize_tranche_user(u) {
                Err(e) => Err(e),
                Ok(u) => Ok(LimitOrderTrancheUserResponse { limit_order_tranche_user: Some(u) }),
            },
        }
    }
}

/// All tranche-user records of a page.
#[derive(Clone, Debug, PartialEq, Eq)]
pub struct LimitOrderTrancheUserAllRespose {
    pub limit_order_tranche_user: Vec<LimitOrderTrancheUser>,
    pub pagination: Option<PageResponse>,
}

impl LimitOrderTrancheUserAllRespose {
    /// Normalizes the listing: records are normalized in order with the
    /// first failure failing the whole response, and the pagination goes
    /// through the codec.
    pub fn from_wire(w: wire::QueryAllLimitOrderTrancheUserResponse) -> (r: Result<
        LimitOrderTrancheUserAllRespose,
        NormalizationError,
    >)
        ensures
            r matches Ok(resp) ==> spec_normalize_tranche_user_seq(w.limit_order_tranche_user@)
                == Ok::<Seq<LimitOrderTrancheUser>, NormalizationError>(
                resp.limit_order_tranche_user@,
            ) && resp.pagination == spec_page_response_from_wire(w.pagination),
            r matches Err(e) ==> spec_normalize_tranche_user_seq(w.limit_order_tranche_user@)
                == Err::<Seq<LimitOrderTrancheUser>, NormalizationError>(e),
    {
        match normalize_tranche_user_vec(w.limit_order_tranche_user) {
            Err(e) => Err(e),
            Ok(limit_order_tranche_user) => Ok(
                LimitOrderTrancheUserAllRespose {
                    limit_order_tranche_user,
                    pagination: page_from_wire(w.pagination),
                },
            ),
        }
    }
}

/// All limit orders of one address.
#[derive(Clone, Debug, PartialEq, Eq)]
pub struct AllUserLimitOrdersResponse {
    pub limit_orders: Vec<LimitOrderTrancheUser>,
    pub pagination: Option<PageResponse>,
}

impl AllUserLimitOrdersResponse {
    /// Normalizes the listing: orders are normalized in order with the
    /// first failure failing the whole response, and the pagination goes
    /// through the codec.
    pub fn from_wire(w: wire::QueryAllUserLimitOrdersResponse) -> (r: Result<
        AllUserLimitOrdersResponse,
        NormalizationError,
    >)
        ensures
            r matches Ok(resp) ==> spec_normalize_tranche_user_seq(w.limit_orders@) == Ok::<
                Seq<LimitOrderTrancheUser>,
                NormalizationError,
            >(resp.limit_orders@) && resp.pagination == spec_page_response_from_wire(w.pagination),
            r matches Err(e) ==> spec_normalize_tranche_user_seq(w.limit_orders@) == Err::<
                Seq<LimitOrderTrancheUser>,
                NormalizationError,
            >(e),
    {
        match normalize_tranche_user_vec(w.limit_orders) {
            Err(e) => Err(e),
            Ok(limit_orders) => Ok(
                AllUserLimitOrdersResponse {
                    limit_orders,
                    pagination: page_from_wire(w.pagination),
                },
            ),
        }
    }
}

/// One active tranche, when it exists.
#[derive(Clone, Debug, PartialEq, Eq)]
pub struct GetLimitOrderTrancheResponse {
    pub limit_order_tranche: Option<LimitOrderTranche>,
}

impl GetLimitOrderTrancheResponse {
    /// The normalized reading of the wire response: an absent tranche
    /// stays absent, a present one has its raw expiration string decoded.
    pub open spec fn spec_from_wire(w: wire::QueryGetLimitOrderTrancheResponse) -> Result<
        GetLimitOrderTrancheResponse,
        NormalizationError,
    > {
        match w.limit_order_tranche {
            Option::None => Ok(GetLimitOrderTrancheResponse { limit_order_tranche: Option::None }),
            Option::Some(t) => match spec_normalize_tranche(t) {
                Err(e) => Err(e),
                Ok(t) => Ok(GetLimitOrderTrancheResponse { limit_order_tranche: Option::Some(t) }),
            },
        }
    }

    /// Normalizes the tranche response, exactly as
    /// [`GetLimitOrderTrancheResponse::spec_from_wire`] states it.
    pub fn from_wire(w: wire::QueryGetLimitOrderTrancheResponse) -> (r: Result<
        GetLimitOrderTrancheResponse,
        NormalizationError,
    >)
        ensures
            r == Self::spec_from_wire(w),
    {
        match w.limit_order_tranche {
            None => Ok(GetLimitOrderTrancheResponse { limit_order_tranche: None }),
            Some(t) => match normalize_tranche(t) {
                Err(e) => Err(e),
                Ok(t) => Ok(GetLimitOrderTrancheResponse { limit_order_tranche: Some(t) }),
            },
        }
    }
}

/// All active tranches of a page.
#[derive(Clone, Debug, PartialEq, Eq)]
pub struct AllLimitOrderTrancheResponse {
    pub limit_order_tranche: Vec<LimitOrderTranche>,
    pub pagination: Option<PageResponse>,
}

impl AllLimitOrderTrancheResponse {
    /// Normalizes the listing: tranches are normalized in order with the
    /// first failure failing the whole response, and the pagination goes
    /// through the codec.
    pub fn from_wire(w: wire::QueryAllLimitOrderTrancheResponse) -> (r: Result<
        AllLimitOrderTrancheResponse,
        NormalizationError,
    >)
        ensures
            r matches Ok(resp) ==> spec_normalize_tranche_seq(w.limit_order_tranche@) == Ok::<
                Seq<LimitOrderTranche>,
                NormalizationError,
            >(resp.limit_order_tranche@) && resp.pagination == spec_page_response_from_wire(
                w.pagination,
            ),
            r matches Err(e) ==> spec_normalize_tranche_seq(w.limit_order_tranche@) == Err::<
                Seq<LimitOrderTranche>,
                NormalizationError,
            >(e),
    {
        match normalize_tranche_vec(w.limit_order_tranche) {
            Err(e) => Err(e),
            Ok(limit_order_tranche) => Ok(
                AllLimitOrderTrancheResponse {
                    limit_order_tranche,
                    pagination: page_from_wire(w.pagination),
                },
            ),
        }
    }
}

/// All deposits of one address.
#[derive(Clone, Debug, PartialEq, Eq)]
pub struct AllUserDepositsResponse {
    pub deposits: Vec<DepositRecord>,
    pub pagination: Option<PageResponse>,
}

impl AllUserDepositsResponse {
    /// Normalizes the deposits response: the records pass through
    /// unchanged and the pagination goes through the codec.
    pub fn from_wire(w: wire::QueryAllUserDepositsResponse) -> (r: AllUserDepositsResponse)
        ensures
            r.deposits == w.deposits,
            r.pagination == spec_page_response_from_wire(w.pagination),
    {
        AllUserDepositsResponse {
            deposits: w.deposits,
            pagination: page_from_wire(w.pagination),
        }
    }
}

/// All tick liquidity of a page, each element tagged by its payload.
#[derive(Clone, Debug, PartialEq, Eq)]
pub struct AllTickLiquidityResponse {
    pub tick_liquidity: Vec<Liquidity>,
    pub pagination: Option<PageResponse>,
}

impl AllTickLiquidityResponse {
    /// Normalizes the listing: every element is tagged by whichever of its
    /// two payloads is present, an element with both or neither payload
    /// fails the whole response, and the pagination goes through the
    /// codec.
    pub fn from_wire(w: wire::QueryAllTickLiquidityResponse) -> (r: Result<
        AllTickLiquidityResponse,
        NormalizationError,
    >)
        ensures
            r matches Ok(resp) ==> spec_normalize_liquidity_seq(w.tick_liquidity@) == Ok::<
                Seq<Liquidity>,
                NormalizationError,
            >(resp.tick_liquidity@) && resp.pagination == spec_page_response_from_wire(
                w.pagination,
            ),
            r matches Err(e) ==> spec_normalize_liquidity_seq(w.tick_liquidity@) == Err::<
                Seq<Liquidity>,
                NormalizationError,
            >(e),
    {
        match normalize_liquidity_vec(w.tick_liquidity) {
            Err(e) => Err(e),
            Ok(tick_liquidity) => Ok(
                AllTickLiquidityResponse {
                    tick_liquidity,
                    pagination: page_from_wire(w.pagination),
                },
            ),
        }
    }
}

/// One inactive tranche.
#[derive(Clone, Debug, PartialEq, Eq)]
pub struct GetInactiveLimitOrderTrancheResponse {
    pub inactive_limit_order_tranche: LimitOrderTranche,
}

impl GetInactiveLimitOrderTrancheResponse {
    /// The normalized reading of the wire response: the tranche has its
    /// raw expiration string decoded.
    pub open spec fn spec_from_wire(w: wire::QueryGetInactiveLimitOrderTrancheResponse) -> Result<
        GetInactiveLimitOrderTrancheResponse,
        NormalizationError,
    > {
        match spec_normalize_tranche(w.inactive_limit_order_tranche) {
            Err(e) => Err(e),
            Ok(t) => Ok(GetInactiveLimitOrderTrancheResponse { inactive_limit_order_tranche: t }),
        }
    }

    /// Normalizes the inactive-tranche response, exactly as
    /// [`GetInactiveLimitOrderTrancheResponse::spec_from_wire`] states it.
    pub fn from_wire(w: wire::QueryGetInactiveLimitOrderTrancheResponse) -> (r: Result<
        GetInactiveLimitOrderTrancheResponse,
        NormalizationError,
    >)
        ensures
            r == Self::spec_from_wire(w),
    {
        match normalize_tranche(w.inactive_limit_order_tranche) {
            Err(e) => Err(e),
            Ok(t) => Ok(GetInactiveLimitOrderTrancheResponse { inactive_limit_order_tranche: t }),
        }
    }
}

/// All inactive tranches of a page.
#[derive(Clone, Debug, PartialEq, Eq)]
pub struct AllInactiveLimitOrderTrancheResponse {
    pub inactive_limit_order_tranche: Vec<LimitOrderTranche>,
    pub pagination: Option<PageResponse>,
}

impl AllInactiveLimitOrderTrancheResponse {
    /// Normalizes the listing: tranches are normalized in order with the
    /// first failure failing the whole response, and the pagination goes
    /// through the codec.
    pub fn from_wire(w: wire::QueryAllInactiveLimitOrderTrancheResponse) -> (r: Result<
        AllInactiveLimitOrderTrancheResponse,
        NormalizationError,
    >)
        ensures
            r matches Ok(resp) ==> spec_normalize_tranche_seq(w.inactive_limit_order_tranche@)
                == Ok::<Seq<LimitOrderTranche>, NormalizationError>(
                resp.inactive_limit_order_tranche@,
            ) && resp.pagination == spec_page_response_from_wire(w.pagination),
            r matches Err(e) ==> spec_normalize_tranche_seq(w.inactive_limit_order_tranche@)
                == Err::<Seq<LimitOrderTranche>, NormalizationError>(e),
    {
        match normalize_tranche_vec(w.inactive_limit_order_tranche) {
            Err(e) => Err(e),
            Ok(inactive_limit_order_tranche) => Ok(
                AllInactiveLimitOrderTrancheResponse {
                    inactive_limit_order_tranche,
                    pagination: page_from_wire(w.pagination),
                },
            ),
        }
    }
}

/// All pool reserves of a page.
#[derive(Clone, Debug, PartialEq, Eq)]
pub struct AllPoolReservesResponse {
    pub pool_reserves: Vec<PoolReserves>,
    pub pagination: Option<PageResponse>,
}

impl AllPoolReservesResponse {
    /// Normalizes the pool-reserves listing: the records pass through
    /// unchanged and the pagination goes through the codec.
    pub fn from_wire(w: wire::QueryAllPoolReservesResponse) -> (r: AllPoolReservesResponse)
        ensures
            r.pool_reserves == w.pool_reserves,
            r.pagination == spec_page_response_from_wire(w.pagination),
    {
        AllPoolReservesResponse {
            pool_reserves: w.pool_reserves,
            pagination: page_from_wire(w.pagination),
        }
    }
}

/// One pool-reserves record.
#[derive(Clone, Debug, PartialEq, Eq)]
pub struct GetPoolReservesResponse {
    pub pool_reserves: PoolReserves,
}

impl GetPoolReservesResponse {
    /// Normalizes the pool-reserves response: the record passes through
    /// unchanged.
    pub fn from_wire(w: wire::QueryGetPoolReservesResponse) -> (r: GetPoolReservesResponse)
        ensures
            r.pool_reserves == w.pool_reserves,
    {
        GetPoolReservesResponse { pool_reserves: w.pool_reserves }
    }
}

/// The estimated proceeds of a multi-hop swap.
#[derive(Clone, Debug, PartialEq, Eq)]
pub struct EstimateMultiHopSwapResponse {
    pub coin_out: Coin,
}

impl EstimateMultiHopSwapResponse {
    /// Normalizes the swap estimate: the coin passes through unchanged.
    pub fn from_wire(w: wire::QueryEstimateMultiHopSwapResponse) -> (r:
        EstimateMultiHopSwapResponse)
        ensures
            r.coin_out == w.coin_out,
    {
        EstimateMultiHopSwapResponse { coin_out: w.coin_out }
    }
}

/// The estimated coin flows of a limit-order placement.
///
/// The total amount in covers both the immediately swapped portion and the
/// maker portion; the swap-out coin is what is immediately available, with
/// future maker proceeds excluded.
#[derive(Clone, Debug, PartialEq, Eq)]
pub struct EstimatePlaceLimitOrderResponse {
    pub total_in_coin: Coin,
    pub swap_in_coin: Coin,
    pub swap_out_coin: Coin,
}

impl EstimatePlaceLimitOrderResponse {
    /// Normalizes the placement estimate: all three coins pass through
    /// unchanged.
    pub fn from_wire(w: wire::QueryEstimatePlaceLimitOrderResponse) -> (r:
        EstimatePlaceLimitOrderResponse)
        ensures
            r.total_in_coin == w.total_in_coin,
            r.swap_in_coin == w.swap_in_coin,
            r.swap_out_coin == w.swap_out_coin,
    {
        EstimatePlaceLimitOrderResponse {
            total_in_coin: w.total_in_coin,
            swap_in_coin: w.swap_in_coin,
            swap_out_coin: w.swap_out_coin,
        }
    }
}

/// One pool.
#[derive(Clone, Debug, PartialEq, Eq)]
pub struct PoolResponse {
    pub pool: Pool,
}

impl PoolResponse {
    /// Normalizes the pool response: the pool passes through unchanged.
    pub fn from_wire(w: wire::QueryPoolResponse) -> (r: PoolResponse)
        ensures
            r.pool == w.pool,
    {
        PoolResponse { pool: w.pool }
    }
}

/// One pool's metadata.
#[derive(Clone, Debug, PartialEq, Eq)]
pub struct GetPoolMetadataResponse {
    pub pool_metadata: PoolMetadata,
}

impl GetPoolMetadataResponse {
    /// Normalizes the pool-metadata response: the record passes through
    /// unchanged.
    pub fn from_wire(w: wire::QueryGetPoolMetadataResponse) -> (r: GetPoolMetadataResponse)
        ensures
            r.pool_metadata == w.pool_metadata,
    {
        GetPoolMetadataResponse { pool_metadata: w.pool_metadata }
    }
}

/// All pool metadata of a page.
#[derive(Clone, Debug, PartialEq, Eq)]
pub struct AllPoolMetadataResponse {
    pub pool_metadata: Vec<PoolMetadata>,
    pub pagination: Option<PageResponse>,
}

impl AllPoolMetadataResponse {
    /// Normalizes the pool-metadata listing: the records pass through
    /// unchanged and the pagination goes through the codec.
    pub fn from_wire(w: wire::QueryAllPoolMetadataResponse) -> (r: AllPoolMetadataResponse)
        ensures
            r.pool_metadata == w.pool_metadata,
            r.pagination == spec_page_response_from_wire(w.pagination),
    {
        AllPoolMetadataResponse {
            pool_metadata: w.pool_metadata,
            pagination: page_from_wire(w.pagination),
        }
    }
}

} // verus!
