use neutron_sdk::order_type::LimitOrderType;
use neutron_sdk::pagination::PageRequest;
use neutron_sdk::requests::{
    AllInactiveLimitOrderTrancheRequest, AllLimitOrderTrancheRequest, AllPoolMetadataRequest,
    AllPoolReservesRequest, AllTickLiquidityRequest, AllUserDepositsRequest,
    AllUserLimitOrdersRequest, EstimateMultiHopSwapRequest, EstimatePlaceLimitOrderRequest,
    GetInactiveLimitOrderTrancheRequest, GetLimitOrderTrancheRequest, GetPoolMetadataRequest,
    GetPoolReservesRequest, LimitOrderTrancheUserAllRequest, LimitOrderTrancheUserRequest,
    ParamsRequest, PoolByIdRequest, PoolRequest, convert_timestamp,
};
use neutron_sdk::types::DepositOptions;

fn page() -> PageRequest {
    PageRequest { key: vec![4, 2], offset: 10, limit: 25, count_total: false, reverse: true }
}

#[test]
fn params_request_translates() {
    let _ = ParamsRequest {}.to_wire();
}

#[test]
fn tranche_user_request_copies_fields() {
    let w = LimitOrderTrancheUserRequest {
        address: String::from("neutron1user"),
        tranche_key: String::from("key-1"),
    }
    .to_wire();
    assert_eq!(w.address, "neutron1user");
    assert_eq!(w.tranche_key, "key-1");
}

#[test]
fn tranche_user_all_request_keeps_cursor() {
    let w = LimitOrderTrancheUserAllRequest { pagination: Some(page()) }.to_wire();
    let wp = w.pagination.expect("cursor kept");
    assert_eq!(wp.key, vec![4, 2]);
    assert_eq!(wp.offset, 10);
    assert_eq!(wp.limit, 25);
    assert!(!wp.count_total);
    assert!(wp.reverse);
}

#[test]
fn all_user_limit_orders_request_copies_fields() {
    let w = AllUserLimitOrdersRequest {
        address: String::from("neutron1user"),
        pagination: None,
    }
    .to_wire();
    assert_eq!(w.address, "neutron1user");
    assert_eq!(w.pagination, None);
}

#[test]
fn get_tranche_request_copies_fields() {
    let w = GetLimitOrderTrancheRequest {
        pair_id: String::from("uatom<>uosmo"),
        tick_index: -5,
        token_in: String::from("uatom"),
        tranche_key: String::from("key-2"),
    }
    .to_wire();
    assert_eq!(w.pair_id, "uatom<>uosmo");
    assert_eq!(w.tick_index, -5);
    assert_eq!(w.token_in, "uatom");
    assert_eq!(w.tranche_key, "key-2");
}

#[test]
fn all_tranche_request_copies_fields() {
    let w = AllLimitOrderTrancheRequest {
        pair_id: String::from("uatom<>uosmo"),
        token_in: String::from("uosmo"),
        pagination: Some(page()),
    }
    .to_wire();
    assert_eq!(w.pair_id, "uatom<>uosmo");
    assert_eq!(w.token_in, "uosmo");
    assert_eq!(w.pagination.expect("cursor kept").offset, 10);
}

#[test]
fn all_user_deposits_request_copies_fields() {
    let w = AllUserDepositsRequest {
        address: String::from("neutron1depositor"),
        pagination: None,
    }
    .to_wire();
    assert_eq!(w.address, "neutron1depositor");
    assert_eq!(w.pagination, None);
}

#[test]
fn all_tick_liquidity_request_copies_fields() {
    let w = AllTickLiquidityRequest {
        pair_id: String::from("uatom<>uosmo"),
        token_in: String::from("uatom"),
        pagination: None,
    }
    .to_wire();
    assert_eq!(w.pair_id, "uatom<>uosmo");
    assert_eq!(w.token_in, "uatom");
    assert_eq!(w.pagination, None);
}

#[test]
fn get_inactive_tranche_request_copies_fields() {
    let w = GetInactiveLimitOrderTrancheRequest {
        pair_id: String::from("uatom<>uosmo"),
        token_in: String::from("uatom"),
        tick_index: 77,
        tranche_key: String::from("key-3"),
    }
    .to_wire();
    assert_eq!(w.pair_id, "uatom<>uosmo");
    assert_eq!(w.token_in, "uatom");
    assert_eq!(w.tick_index, 77);
    assert_eq!(w.tranche_key, "key-3");
}

#[test]
fn all_inactive_tranche_request_keeps_cursor() {
    let w = AllInactiveLimitOrderTrancheRequest { pagination: Some(page()) }.to_wire();
    assert_eq!(w.pagination.expect("cursor kept").limit, 25);
}

#[test]
fn all_pool_reserves_request_copies_fields() {
    let w = AllPoolReservesRequest {
        pair_id: String::from("uatom<>uosmo"),
        token_in: String::from("uosmo"),
        pagination: None,
    }
    .to_wire();
    assert_eq!(w.pair_id, "uatom<>uosmo");
    assert_eq!(w.token_in, "uosmo");
    assert_eq!(w.pagination, None);
}

#[test]
fn get_pool_reserves_request_copies_fields() {
    let w = GetPoolReservesRequest {
        pair_id: String::from("uatom<>uosmo"),
        token_in: String::from("uatom"),
        tick_index: -3,
        fee: 30,
    }
    .to_wire();
    assert_eq!(w.pair_id, "uatom<>uosmo");
    assert_eq!(w.token_in, "uatom");
    assert_eq!(w.tick_index, -3);
    assert_eq!(w.fee, 30);
}

#[test]
fn multi_hop_swap_request_wraps_routes_in_order() {
    let w = EstimateMultiHopSwapRequest {
        creator: String::from("neutron1creator"),
        receiver: String::from("neutron1receiver"),
        routes: vec![
            vec![String::from("uatom"), String::from("uosmo")],
            vec![String::from("uatom"), String::from("uusdc"), String::from("uosmo")],
        ],
        amount_in: String::from("1000"),
        exit_limit_price: String::from("0.995"),
        pick_best_route: true,
    }
    .to_wire();
    assert_eq!(w.creator, "neutron1creator");
    assert_eq!(w.receiver, "neutron1receiver");
    assert_eq!(w.amount_in, "1000");
    assert_eq!(w.exit_limit_price, "0.995");
    assert!(w.pick_best_route);
    assert_eq!(w.routes.len(), 2);
    assert_eq!(w.routes[0].hops, vec![String::from("uatom"), String::from("uosmo")]);
    assert_eq!(
        w.routes[1].hops,
        vec![String::from("uatom"), String::from("uusdc"), String::from("uosmo")]
    );
}

#[test]
fn multi_hop_swap_request_keeps_empty_routes() {
    let none = EstimateMultiHopSwapRequest {
        creator: String::new(),
        receiver: String::new(),
        routes: vec![],
        amount_in: String::from("1"),
        exit_limit_price: String::from("1"),
        pick_best_route: false,
    }
    .to_wire();
    assert!(none.routes.is_empty());

    let empty_inner = EstimateMultiHopSwapRequest {
        creator: String::new(),
        receiver: String::new(),
        routes: vec![vec![]],
        amount_in: String::from("1"),
        exit_limit_price: String::from("1"),
        pick_best_route: false,
    }
    .to_wire();
    assert_eq!(empty_inner.routes.len(), 1);
    assert!(empty_inner.routes[0].hops.is_empty());
}

#[test]
fn place_limit_order_request_encodes_policy_fields() {
    let w = EstimatePlaceLimitOrderRequest {
        creator: String::from("neutron1creator"),
        receiver: String::from("neutron1receiver"),
        token_in: String::from("uatom"),
        token_out: String::from("uosmo"),
        tick_index_in_to_out: 12,
        amount_in: String::from("500"),
        order_type: LimitOrderType::GoodTilTime,
        expiration_time: Some(1685620800),
        max_amount_out: Some(String::from("499")),
    }
    .to_wire();
    assert_eq!(w.creator, "neutron1creator");
    assert_eq!(w.receiver, "neutron1receiver");
    assert_eq!(w.token_in, "uatom");
    assert_eq!(w.token_out, "uosmo");
    assert_eq!(w.tick_index_in_to_out, 12);
    assert_eq!(w.amount_in, "500");
    assert_eq!(w.order_type, 4);
    let ts = w.expiration_time.expect("expiration kept");
    assert_eq!(ts.seconds, 1685620800);
    assert_eq!(ts.nanos, 0);
    assert_eq!(w.max_amount_out, "499");
}

#[test]
fn place_limit_order_request_defaults_absent_options() {
    let w = EstimatePlaceLimitOrderRequest {
        creator: String::new(),
        receiver: String::new(),
        token_in: String::from("uatom"),
        token_out: String::from("uosmo"),
        tick_index_in_to_out: 0,
        amount_in: String::from("1"),
        order_type: LimitOrderType::GoodTilCancelled,
        expiration_time: None,
        max_amount_out: None,
    }
    .to_wire();
    assert_eq!(w.order_type, 0);
    assert_eq!(w.expiration_time, None);
    assert_eq!(w.max_amount_out, "");
}

#[test]
fn convert_timestamp_is_whole_seconds() {
    let ts = convert_timestamp(-7);
    assert_eq!(ts.seconds, -7);
    assert_eq!(ts.nanos, 0);
}

#[test]
fn pool_request_copies_fields() {
    let w = PoolRequest { pair_id: String::from("uatom<>uosmo"), tick_index: 9, fee: 5 }.to_wire();
    assert_eq!(w.pair_id, "uatom<>uosmo");
    assert_eq!(w.tick_index, 9);
    assert_eq!(w.fee, 5);
}

#[test]
fn pool_by_id_request_copies_id() {
    assert_eq!(PoolByIdRequest { pool_id: 11 }.to_wire().pool_id, 11);
}

#[test]
fn pool_metadata_requests_copy_fields() {
    assert_eq!(GetPoolMetadataRequest { id: 6 }.to_wire().id, 6);
    let all = AllPoolMetadataRequest { pagination: Some(page()) }.to_wire();
    assert_eq!(all.pagination.expect("cursor kept").key, vec![4, 2]);
}

#[test]
fn deposit_options_copy_flag() {
    assert!(DepositOptions { disable_autoswap: true }.to_wire().disable_autoswap);
    assert!(!DepositOptions { disable_autoswap: false }.to_wire().disable_autoswap);
}
