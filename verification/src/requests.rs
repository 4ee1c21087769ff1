use vstd::prelude::*;
use crate::order_type::{spec_encode_order_type, LimitOrderType};
use crate::pagination::{spec_page_request_to_wire, to_wire as page_to_wire, PageRequest};
use crate::types::DepositOptions;
use crate::wire;

verus! {

// ---------------------------------------------------------------------------
// Caller-facing request values, one per supported query kind, each with its
// translation into the external wire-request value. Every translation is a
// total, pure structural mapping; the only steps beyond field renaming are
// the pagination codec, the order-type codec, the wrapping of swap routes
// into named hop-route records, and the outbound timestamp conversion.
// ---------------------------------------------------------------------------

/// Request for the exchange module's parameters.
#[derive(Clone, Debug, PartialEq, Eq)]
pub struct ParamsRequest {}

impl ParamsRequest {
    /// Builds the wire request for the module parameters.
    pub fn to_wire(self) -> (r: wire::QueryParamsRequest)
        ensures
            r == (wire::QueryParamsRequest {  }),
    {
        wire::QueryParamsRequest {  }
    }
}

/// Request for one user's record in one tranche.
#[derive(Clone, Debug, PartialEq, Eq)]
pub struct LimitOrderTrancheUserRequest {
    pub address: String,
    pub tranche_key: String,
}

impl LimitOrderTrancheUserRequest {
    /// The wire image of this request: both fields pass through unchanged.
    pub open spec fn spec_to_wire(self) -> wire::QueryGetLimitOrderTrancheUserRequest {
        wire::QueryGetLimitOrderTrancheUserRequest {
            address: self.address,
            tranche_key: self.tranche_key,
        }
    }

    /// Builds the wire request for one tranche-user record.
    pub fn to_wire(self) -> (r: wire::QueryGetLimitOrderTrancheUserRequest)
        ensures
            r == self.spec_to_wire(),
    {
        wire::QueryGetLimitOrderTrancheUserRequest {
            address: self.address,
            tranche_key: self.tranche_key,
        }
    }
}

/// Request for all tranche-user records.
#[derive(Clone, Debug, PartialEq, Eq)]
pub struct LimitOrderTrancheUserAllRequest {
    pub pagination: Option<PageRequest>,
}

impl LimitOrderTrancheUserAllRequest {
    /// The wire image of this request: the cursor goes through the
    /// pagination codec.
    pub open spec fn spec_to_wire(self) -> wire::QueryAllLimitOrderTrancheUserRequest {
        wire::QueryAllLimitOrderTrancheUserRequest {
            pagination: spec_page_request_to_wire(self.pagination),
        }
    }

    /// Builds the wire request for all tranche-user records.
    pub fn to_wire(self) -> (r: wire::QueryAllLimitOrderTrancheUserRequest)
        ensures
            r == self.spec_to_wire(),
    {
        wire::QueryAllLimitOrderTrancheUserRequest { pagination: page_to_wire(self.pagination) }
    }
}

/// Request for all limit orders of one address.
#[derive(Clone, Debug, PartialEq, Eq)]
pub struct AllUserLimitOrdersRequest {
    pub address: String,
    pub pagination: Option<PageRequest>,
}

impl AllUserLimitOrdersRequest {
    /// The wire image of this request.
    pub open spec fn spec_to_wire(self) -> wire::QueryAllUserLimitOrdersRequest {
        wire::QueryAllUserLimitOrdersRequest {
            address: self.address,
            pagination: spec_page_request_to_wire(self.pagination),
        }
    }

    /// Builds the wire request for one address's limit orders.
    pub fn to_wire(self) -> (r: wire::QueryAllUserLimitOrdersRequest)
        ensures
            r == self.spec_to_wire(),
    {
        wire::QueryAllUserLimitOrdersRequest {
            address: self.address,
            pagination: page_to_wire(self.pagination),
        }
    }
}

/// Request for one active tranche.
#[derive(Clone, Debug, PartialEq, Eq)]
pub struct GetLimitOrderTrancheRequest {
    pub pair_id: String,
    pub tick_index: i64,
    pub token_in: String,
    pub tranche_key: String,
}

impl GetLimitOrderTrancheRequest {
    /// The wire image of this request: all four fields pass through
    /// unchanged.
    pub open spec fn spec_to_wire(self) -> wire::QueryGetLimitOrderTrancheRequest {
        wire::QueryGetLimitOrderTrancheRequest {
            pair_id: self.pair_id,
            tick_index: self.tick_index,
            token_in: self.token_in,
            tranche_key: self.tranche_key,
        }
    }

    /// Builds the wire request for one active tranche.
    pub fn to_wire(self) -> (r: wire::QueryGetLimitOrderTrancheRequest)
        ensures
            r == self.spec_to_wire(),
    {
        wire::QueryGetLimitOrderTrancheRequest {
            pair_id: self.pair_id,
            tick_index: self.tick_index,
            token_in: self.token_in,
            tranche_key: self.tranche_key,
        }
    }
}

/// Request for all active tranches of a pair.
#[derive(Clone, Debug, PartialEq, Eq)]
pub struct AllLimitOrderTrancheRequest {
    pub pair_id: String,
    pub token_in: String,
    pub pagination: Option<PageRequest>,
}

impl AllLimitOrderTrancheRequest {
    /// The wire image of this request.
    pub open spec fn spec_to_wire(self) -> wire::QueryAllLimitOrderTrancheRequest {
        wire::QueryAllLimitOrderTrancheRequest {
            pair_id: self.pair_id,
            token_in: self.token_in,
            pagination: spec_page_request_to_wire(self.pagination),
        }
    }

    /// Builds the wire request for all active tranches of a pair.
    pub fn to_wire(self) -> (r: wire::QueryAllLimitOrderTrancheRequest)
        ensures
            r == self.spec_to_wire(),
    {
        wire::QueryAllLimitOrderTrancheRequest {
            pair_id: self.pair_id,
            token_in: self.token_in,
            pagination: page_to_wire(self.pagination),
        }
    }
}

/// Request for all deposits of one address.
#[derive(Clone, Debug, PartialEq, Eq)]
pub struct AllUserDepositsRequest {
    pub address: String,
    pub pagination: Option<PageRequest>,
}

impl AllUserDepositsRequest {
    /// The wire image of this request.
    pub open spec fn spec_to_wire(self) -> wire::QueryAllUserDepositsRequest {
        wire::QueryAllUserDepositsRequest {
            address: self.address,
            pagination: spec_page_request_to_wire(self.pagination),
        }
    }

    /// Builds the wire request for one address's deposits.
    pub fn to_wire(self) -> (r: wire::QueryAllUserDepositsRequest)
        ensures
            r == self.spec_to_wire(),
    {
        wire::QueryAllUserDepositsRequest {
            address: self.address,
            pagination: page_to_wire(self.pagination),
        }
    }
}

/// Request for all tick liquidity of a pair.
#[derive(Clone, Debug, PartialEq, Eq)]
pub struct AllTickLiquidityRequest {
    pub pair_id: String,
    pub token_in: String,
    pub pagination: Option<PageRequest>,
}

impl AllTickLiquidityRequest {
    /// The wire image of this request.
    pub open spec fn spec_to_wire(self) -> wire::QueryAllTickLiquidityRequest {
        wire::QueryAllTickLiquidityRequest {
            pair_id: self.pair_id,
            token_in: self.token_in,
            pagination: spec_page_request_to_wire(self.pagination),
        }
    }

    /// Builds the wire request for all tick liquidity of a pair.
    pub fn to_wire(self) -> (r: wire::QueryAllTickLiquidityRequest)
        ensures
            r == self.spec_to_wire(),
    {
        wire::QueryAllTickLiquidityRequest {
            pair_id: self.pair_id,
            token_in: self.token_in,
            pagination: page_to_wire(self.pagination),
        }
    }
}

/// Request for one inactive tranche.
#[derive(Clone, Debug, PartialEq, Eq)]
pub struct GetInactiveLimitOrderTrancheRequest {
    pub pair_id: String,
    pub token_in: String,
    pub tick_index: i64,
    pub tranche_key: String,
}

impl GetInactiveLimitOrderTrancheRequest {
    /// The wire image of this request: all four fields pass through
    /// unchanged.
    pub open spec fn spec_to_wire(self) -> wire::QueryGetInactiveLimitOrderTrancheRequest {
        wire::QueryGetInactiveLimitOrderTrancheRequest {
            pair_id: self.pair_id,
            token_in: self.token_in,
            tick_index: self.tick_index,
            tranche_key: self.tranche_key,
        }
    }

    /// Builds the wire request for one inactive tranche.
    pub fn to_wire(self) -> (r: wire::QueryGetInactiveLimitOrderTrancheRequest)
        ensures
            r == self.spec_to_wire(),
    {
        wire::QueryGetInactiveLimitOrderTrancheRequest {
            pair_id: self.pair_id,
            token_in: self.token_in,
            tick_index: self.tick_index,
            tranche_key: self.tranche_key,
        }
    }
}

/// Request for all inactive tranches.
#[derive(Clone, Debug, PartialEq, Eq)]
pub struct AllInactiveLimitOrderTrancheRequest {
    pub pagination: Option<PageRequest>,
}

impl AllInactiveLimitOrderTrancheRequest {
    /// The wire image of this request.
    pub open spec fn spec_to_wire(self) -> wire::QueryAllInactiveLimitOrderTrancheRequest {
        wire::QueryAllInactiveLimitOrderTrancheRequest {
            pagination: spec_page_request_to_wire(self.pagination),
        }
    }

    /// Builds the wire request for all inactive tranches.
    pub fn to_wire(self) -> (r: wire::QueryAllInactiveLimitOrderTrancheRequest)
        ensures
            r == self.spec_to_wire(),
    {
        wire::QueryAllInactiveLimitOrderTrancheRequest { pagination: page_to_wire(self.pagination) }
    }
}

/// Request for all pool reserves of a pair.
#[derive(Clone, Debug, PartialEq, Eq)]
pub struct AllPoolReservesRequest {
    pub pair_id: String,
    pub token_in: String,
    pub pagination: Option<PageRequest>,
}

impl AllPoolReservesRequest {
    /// The wire image of this request.
    pub open spec fn spec_to_wire(self) -> wire::QueryAllPoolReservesRequest {
        wire::QueryAllPoolReservesRequest {
            pair_id: self.pair_id,
            token_in: self.token_in,
            pagination: spec_page_request_to_wire(self.pagination),
        }
    }

    /// Builds the wire request for all pool reserves of a pair.
    pub fn to_wire(self) -> (r: wire::QueryAllPoolReservesRequest)
        ensures
            r == self.spec_to_wire(),
    {
        wire::QueryAllPoolReservesRequest {
            pair_id: self.pair_id,
            token_in: self.token_in,
            pagination: page_to_wire(self.pagination),
        }
    }
}

/// Request for one pool-reserves record.
#[derive(Clone, Debug, PartialEq, Eq)]
pub struct GetPoolReservesRequest {
    pub pair_id: String,
    pub token_in: String,
    pub tick_index: i64,
    pub fee: u64,
}

impl GetPoolReservesRequest {
    /// The wire image of this request: all four fields pass through
    /// unchanged.
    pub open spec fn spec_to_wire(self) -> wire::QueryGetPoolReservesRequest {
        wire::QueryGetPoolReservesRequest {
            pair_id: self.pair_id,
            token_in: self.token_in,
            tick_index: self.tick_index,
            fee: self.fee,
        }
    }

    /// Builds the wire request for one pool-reserves record.
    pub fn to_wire(self) -> (r: wire::QueryGetPoolReservesRequest)
        ensures
            r == self.spec_to_wire(),
    {
        wire::QueryGetPoolReservesRequest {
            pair_id: self.pair_id,
            token_in: self.token_in,
            tick_index: self.tick_index,
            fee: self.fee,
        }
    }
}

/// Request for a multi-hop swap estimate. Each inner token sequence of
/// `routes` is one candidate route; an empty outer list means "no route
/// constraints", and an empty inner list is preserved as given.
#[derive(Clone, Debug, PartialEq, Eq)]
pub struct EstimateMultiHopSwapRequest {
    pub creator: String,
    pub receiver: String,
    pub routes: Vec<Vec<String>>,
    pub amount_in: String,
    pub exit_limit_price: String,
    pub pick_best_route: bool,
}

/// The wire image of a route list: each token sequence is wrapped, in
/// order, into a named hop-route record that carries it unchanged.
pub open spec fn spec_wrap_routes(routes: Seq<Vec<String>>) -> Seq<wire::MultiHopRoute> {
    routes.map_values(|hops: Vec<String>| (wire::MultiHopRoute { hops }))
}

impl EstimateMultiHopSwapRequest {
    /// Builds the wire request for a multi-hop swap estimate: every scalar
    /// field passes through unchanged, and the route list is wrapped
    /// element for element, in order.
    pub fn to_wire(self) -> (r: wire::QueryEstimateMultiHopSwapRequest)
        ensures
            r.creator == self.creator,
            r.receiver == self.receiver,
            r.routes@ == spec_wrap_routes(self.routes@),
            r.amount_in == self.amount_in,
            r.exit_limit_price == self.exit_limit_price,
            r.pick_best_route == self.pick_best_route,
    {
        let ghost all_routes = self.routes@;
        let mut remaining = self.routes;
        let mut routes: Vec<wire::MultiHopRoute> = Vec::new();
        while remaining.len() > 0
            invariant
                routes@.len() + remaining@.len() == all_routes.len(),
                forall|i: int|
                    0 <= i < routes@.len() ==> routes@[i] == (wire::MultiHopRoute {
                        hops: all_routes[i],
                    }),
                forall|i: int|
                    0 <= i < remaining@.len() ==> remaining@[i] == all_routes[routes@.len() + i],
            decreases remaining@.len(),
        {
            let hops = remaining.remove(0);
            routes.push(wire::MultiHopRoute { hops });
        }
        proof {
            assert(routes@ =~= spec_wrap_routes(all_routes));
        }
        wire::QueryEstimateMultiHopSwapRequest {
            creator: self.creator,
            receiver: self.receiver,
            routes,
            amount_in: self.amount_in,
            exit_limit_price: self.exit_limit_price,
            pick_best_route: self.pick_best_route,
        }
    }
}

/// Law: route wrapping is injective — two route lists with the same wire
/// image are the same list, so the wire image of a multi-hop swap request
/// determines every token sequence of the input.
pub proof fn lemma_wrap_routes_injective(a: Seq<Vec<String>>, b: Seq<Vec<String>>)
    requires
        spec_wrap_routes(a) == spec_wrap_routes(b),
    ensures
        a == b,
{
    assert(spec_wrap_routes(a).len() == a.len());
    assert(spec_wrap_routes(b).len() == b.len());
    assert forall|i: int| 0 <= i < a.len() implies a[i] == b[i] by {
        assert(spec_wrap_routes(a)[i] == spec_wrap_routes(b)[i]);
        assert(spec_wrap_routes(a)[i].hops == a[i]);
        assert(spec_wrap_routes(b)[i].hops == b[i]);
    }
    assert(a =~= b);
}

/// The wire image of an outbound unix timestamp: whole seconds, no
/// nanosecond remainder.
pub open spec fn spec_convert_timestamp(unix: i64) -> wire::Timestamp {
    wire::Timestamp { seconds: unix, nanos: 0 }
}

/// Converts a caller-facing integer timestamp into the wire protocol's
/// timestamp representation.
pub fn convert_timestamp(unix: i64) -> (r: wire::Timestamp)
    ensures
        r == spec_convert_timestamp(unix),
{
    wire::Timestamp { seconds: unix, nanos: 0 }
}

/// Request for a limit-order placement estimate.
#[derive(Clone, Debug, PartialEq, Eq)]
pub struct EstimatePlaceLimitOrderRequest {
    pub creator: String,
    pub receiver: String,
    pub token_in: String,
    pub token_out: String,
    pub tick_index_in_to_out: i64,
    pub amount_in: String,
    pub order_type: LimitOrderType,
    pub expiration_time: Option<i64>,
    pub max_amount_out: Option<String>,
}

impl EstimatePlaceLimitOrderRequest {
    /// Builds the wire request for a limit-order placement estimate. The
    /// order type is encoded to its wire code; a present expiration time is
    /// converted to the wire timestamp shape and an absent one is encoded
    /// as the wire default (absence), never as the sentinel date; an absent
    /// maximum amount out becomes the empty string.
    pub fn to_wire(self) -> (r: wire::QueryEstimatePlaceLimitOrderRequest)
        ensures
            r.creator == self.creator,
            r.receiver == self.receiver,
            r.token_in == self.token_in,
            r.token_out == self.token_out,
            r.tick_index_in_to_out == self.tick_index_in_to_out,
            r.amount_in == self.amount_in,
            r.order_type == spec_encode_order_type(self.order_type),
            self.expiration_time matches Some(t) ==> r.expiration_time == Some(
                spec_convert_timestamp(t),
            ),
            self.expiration_time is None ==> r.expiration_time is None,
            self.max_amount_out matches Some(m) ==> r.max_amount_out == m,
            self.max_amount_out is None ==> r.max_amount_out@ == Seq::<char>::empty(),
    {
        let expiration_time = match self.expiration_time {
            Some(t) => Some(convert_timestamp(t)),
            None => None,
        };
        let max_amount_out = match self.max_amount_out {
            Some(m) => m,
            None => String::new(),
        };
        wire::QueryEstimatePlaceLimitOrderRequest {
            creator: self.creator,
            receiver: self.receiver,
            token_in: self.token_in,
            token_out: self.token_out,
            tick_index_in_to_out: self.tick_index_in_to_out,
            amount_in: self.amount_in,
            order_type: self.order_type.encode(),
            expiration_time,
            max_amount_out,
        }
    }
}

/// Request for one pool by pair, tick, and fee.
#[derive(Clone, Debug, PartialEq, Eq)]
pub struct PoolRequest {
    pub pair_id: String,
    pub tick_index: i64,
    pub fee: u64,
}

impl PoolRequest {
    /// The wire image of this request: all three fields pass through
    /// unchanged.
    pub open spec fn spec_to_wire(self) -> wire::QueryPoolRequest {
        wire::QueryPoolRequest {
            pair_id: self.pair_id,
            tick_index: self.tick_index,
            fee: self.fee,
        }
    }

    /// Builds the wire request for one pool.
    pub fn to_wire(self) -> (r: wire::QueryPoolRequest)
        ensures
            r == self.spec_to_wire(),
    {
        wire::QueryPoolRequest {
            pair_id: self.pair_id,
            tick_index: self.tick_index,
            fee: self.fee,
        }
    }
}

/// Request for one pool by id.
#[derive(Clone, Copy, Debug, PartialEq, Eq, Structural)]
pub struct PoolByIdRequest {
    pub pool_id: u64,
}

impl PoolByIdRequest {
    /// Builds the wire request for one pool by id: the id passes through
    /// unchanged.
    pub fn to_wire(self) -> (r: wire::QueryPoolByIdRequest)
        ensures
            r == (wire::QueryPoolByIdRequest { pool_id: self.pool_id }),
    {
        wire::QueryPoolByIdRequest { pool_id: self.pool_id }
    }
}

/// Request for one pool's metadata.
#[derive(Clone, Copy, Debug, PartialEq, Eq, Structural)]
pub struct GetPoolMetadataRequest {
    pub id: u64,
}

impl GetPoolMetadataRequest {
    /// Builds the wire request for one pool's metadata: the id passes
    /// through unchanged.
    pub fn to_wire(self) -> (r: wire::QueryGetPoolMetadataRequest)
        ensures
            r == (wire::QueryGetPoolMetadataRequest { id: self.id }),
    {
        wire::QueryGetPoolMetadataRequest { id: self.id }
    }
}

/// Request for all pool metadata.
#[derive(Clone, Debug, PartialEq, Eq)]
pub struct AllPoolMetadataRequest {
    pub pagination: Option<PageRequest>,
}

impl AllPoolMetadataRequest {
    /// The wire image of this request.
    pub open spec fn spec_to_wire(self) -> wire::QueryAllPoolMetadataRequest {
        wire::QueryAllPoolMetadataRequest {
            pagination: spec_page_request_to_wire(self.pagination),
        }
    }

    /// Builds the wire request for all pool metadata.
    pub fn to_wire(self) -> (r: wire::QueryAllPoolMetadataRequest)
        ensures
            r == self.spec_to_wire(),
    {
        wire::QueryAllPoolMetadataRequest { pagination: page_to_wire(self.pagination) }
    }
}

// ---------------------------------------------------------------------------
// Laws: every translation is injective on the fields it copies verbatim —
// the wire image determines the caller's request. For the two steps that
// are not verbatim copies, the order-type codec and the route wrapping
// have injectivity laws of their own, and the timestamp conversion has one
// below; only an absent maximum amount out shares its wire image (the
// empty string) with a present empty one.
// ---------------------------------------------------------------------------

/// Law: the wire image of a tranche-user request determines the request.
pub proof fn lemma_tranche_user_request_injective(
    a: LimitOrderTrancheUserRequest,
    b: LimitOrderTrancheUserRequest,
)
    requires
        a.spec_to_wire() == b.spec_to_wire(),
    ensures
        a == b,
{
}

/// Law: the wire image of an all-tranche-users request determines the
/// request.
pub proof fn lemma_tranche_user_all_request_injective(
    a: LimitOrderTrancheUserAllRequest,
    b: LimitOrderTrancheUserAllRequest,
)
    requires
        a.spec_to_wire() == b.spec_to_wire(),
    ensures
        a == b,
{
    crate::pagination::lemma_page_request_to_wire_injective(a.pagination, b.pagination);
}

/// Law: the wire image of a user's limit-orders request determines the
/// request.
pub proof fn lemma_all_user_limit_orders_request_injective(
    a: AllUserLimitOrdersRequest,
    b: AllUserLimitOrdersRequest,
)
    requires
        a.spec_to_wire() == b.spec_to_wire(),
    ensures
        a == b,
{
    crate::pagination::lemma_page_request_to_wire_injective(a.pagination, b.pagination);
}

/// Law: the wire image of a get-tranche request determines the request.
pub proof fn lemma_get_tranche_request_injective(
    a: GetLimitOrderTrancheRequest,
    b: GetLimitOrderTrancheRequest,
)
    requires
        a.spec_to_wire() == b.spec_to_wire(),
    ensures
        a == b,
{
}

/// Law: the wire image of an all-tranches request determines the request.
pub proof fn lemma_all_tranche_request_injective(
    a: AllLimitOrderTrancheRequest,
    b: AllLimitOrderTrancheRequest,
)
    requires
        a.spec_to_wire() == b.spec_to_wire(),
    ensures
        a == b,
{
    crate::pagination::lemma_page_request_to_wire_injective(a.pagination, b.pagination);
}

/// Law: the wire image of a user-deposits request determines the request.
pub proof fn lemma_all_user_deposits_request_injective(
    a: AllUserDepositsRequest,
    b: AllUserDepositsRequest,
)
    requires
        a.spec_to_wire() == b.spec_to_wire(),
    ensures
        a == b,
{
    crate::pagination::lemma_page_request_to_wire_injective(a.pagination, b.pagination);
}

/// Law: the wire image of a tick-liquidity request determines the request.
pub proof fn lemma_all_tick_liquidity_request_injective(
    a: AllTickLiquidityRequest,
    b: AllTickLiquidityRequest,
)
    requires
        a.spec_to_wire() == b.spec_to_wire(),
    ensures
        a == b,
{
    crate::pagination::lemma_page_request_to_wire_injective(a.pagination, b.pagination);
}

/// Law: the wire image of a get-inactive-tranche request determines the
/// request.
pub proof fn lemma_get_inactive_tranche_request_injective(
    a: GetInactiveLimitOrderTrancheRequest,
    b: GetInactiveLimitOrderTrancheRequest,
)
    requires
        a.spec_to_wire() == b.spec_to_wire(),
    ensures
        a == b,
{
}

/// Law: the wire image of an all-inactive-tranches request determines the
/// request.
pub proof fn lemma_all_inactive_tranche_request_injective(
    a: AllInactiveLimitOrderTrancheRequest,
    b: AllInactiveLimitOrderTrancheRequest,
)
    requires
        a.spec_to_wire() == b.spec_to_wire(),
    ensures
        a == b,
{
    crate::pagination::lemma_page_request_to_wire_injective(a.pagination, b.pagination);
}

/// Law: the wire image of an all-pool-reserves request determines the
/// request.
pub proof fn lemma_all_pool_reserves_request_injective(
    a: AllPoolReservesRequest,
    b: AllPoolReservesRequest,
)
    requires
        a.spec_to_wire() == b.spec_to_wire(),
    ensures
        a == b,
{
    crate::pagination::lemma_page_request_to_wire_injective(a.pagination, b.pagination);
}

/// Law: the wire image of a get-pool-reserves request determines the
/// request.
pub proof fn lemma_get_pool_reserves_request_injective(
    a: GetPoolReservesRequest,
    b: GetPoolReservesRequest,
)
    requires
        a.spec_to_wire() == b.spec_to_wire(),
    ensures
        a == b,
{
}

/// Law: the wire image of a pool request determines the request.
pub proof fn lemma_pool_request_injective(a: PoolRequest, b: PoolRequest)
    requires
        a.spec_to_wire() == b.spec_to_wire(),
    ensures
        a == b,
{
}

/// Law: the wire image of an all-pool-metadata request determines the
/// request.
pub proof fn lemma_all_pool_metadata_request_injective(
    a: AllPoolMetadataRequest,
    b: AllPoolMetadataRequest,
)
    requires
        a.spec_to_wire() == b.spec_to_wire(),
    ensures
        a == b,
{
    crate::pagination::lemma_page_request_to_wire_injective(a.pagination, b.pagination);
}

/// Law: the outbound timestamp conversion is injective — the wire image
/// keeps the whole seconds value.
pub proof fn lemma_convert_timestamp_injective(a: i64, b: i64)
    requires
        spec_convert_timestamp(a) == spec_convert_timestamp(b),
    ensures
        a == b,
{
}

impl DepositOptions {
    /// Builds the wire shape of these options: the flag passes through
    /// unchanged.
    pub fn to_wire(self) -> (r: wire::DepositOptions)
        ensures
            r == (wire::DepositOptions { disable_autoswap: self.disable_autoswap }),
    {
        wire::DepositOptions { disable_autoswap: self.disable_autoswap }
    }
}

} // verus!
