use neutron_sdk::error::NormalizationError;
use neutron_sdk::expiration::decode_expiration_time;
use neutron_sdk::order_type::LimitOrderType;
use neutron_sdk::pagination::{from_wire, to_wire, PageRequest, WirePageResponse};

#[test]
fn order_type_round_trip_all_variants() {
    let variants = vec![
        LimitOrderType::GoodTilCancelled,
        LimitOrderType::FillOrKill,
        LimitOrderType::ImmediateOrCancel,
        LimitOrderType::JustInTime,
        LimitOrderType::GoodTilTime,
    ];
    for v in variants {
        assert_eq!(LimitOrderType::decode(v.encode()), Ok(v));
    }
}

#[test]
fn order_type_codes_are_fixed() {
    assert_eq!(LimitOrderType::GoodTilCancelled.encode(), 0);
    assert_eq!(LimitOrderType::FillOrKill.encode(), 1);
    assert_eq!(LimitOrderType::ImmediateOrCancel.encode(), 2);
    assert_eq!(LimitOrderType::JustInTime.encode(), 3);
    assert_eq!(LimitOrderType::GoodTilTime.encode(), 4);
}

#[test]
fn order_type_decode_rejects_out_of_range() {
    assert_eq!(
        LimitOrderType::decode(5),
        Err(NormalizationError::InvalidEnum { value: 5, valid_min: 0, valid_max: 4 })
    );
    assert_eq!(
        LimitOrderType::decode(-1),
        Err(NormalizationError::InvalidEnum { value: -1, valid_min: 0, valid_max: 4 })
    );
    assert_eq!(
        LimitOrderType::decode(i32::MAX),
        Err(NormalizationError::InvalidEnum { value: i32::MAX, valid_min: 0, valid_max: 4 })
    );
    assert_eq!(
        LimitOrderType::decode(i32::MIN),
        Err(NormalizationError::InvalidEnum { value: i32::MIN, valid_min: 0, valid_max: 4 })
    );
}

#[test]
fn expiration_absent_decodes_to_absent() {
    assert_eq!(decode_expiration_time(None), Ok(None));
}

#[test]
fn expiration_sentinel_decodes_to_zero() {
    let raw = String::from("0001-01-01T00:00:00Z");
    assert_eq!(decode_expiration_time(Some(raw)), Ok(Some(0)));
}

#[test]
fn expiration_rfc3339_decodes_to_unix_seconds() {
    let raw = String::from("2023-06-01T12:00:00Z");
    assert_eq!(decode_expiration_time(Some(raw)), Ok(Some(1685620800)));
}

#[test]
fn expiration_epoch_day_two() {
    let raw = String::from("1970-01-02T00:00:00Z");
    assert_eq!(decode_expiration_time(Some(raw)), Ok(Some(86400)));
}

#[test]
fn expiration_rejects_garbage() {
    let raw = String::from("not-a-date");
    assert_eq!(
        decode_expiration_time(Some(raw)),
        Err(NormalizationError::TimeParseError { raw: String::from("not-a-date") })
    );
}

#[test]
fn page_request_round_trip() {
    let p = PageRequest {
        key: vec![1, 2, 3],
        offset: 7,
        limit: 50,
        count_total: true,
        reverse: false,
    };
    let w = to_wire(Some(p.clone())).expect("a present cursor is kept");
    assert_eq!(w.key, p.key);
    assert_eq!(w.offset, p.offset);
    assert_eq!(w.limit, p.limit);
    assert_eq!(w.count_total, p.count_total);
    assert_eq!(w.reverse, p.reverse);
}

#[test]
fn page_request_absent_stays_absent() {
    assert_eq!(to_wire(None), None);
}

#[test]
fn page_response_round_trip() {
    let w = WirePageResponse { next_key: Some(vec![9, 8]), total: Some(321) };
    let p = from_wire(Some(w)).expect("a present response is kept");
    assert_eq!(p.next_key, Some(vec![9, 8]));
    assert_eq!(p.total, Some(321));
    assert_eq!(from_wire(None), None);
}
