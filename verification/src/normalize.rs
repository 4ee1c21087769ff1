use vstd::prelude::*;
use crate::error::NormalizationError;
use crate::expiration::{decode_expiration_time, spec_decode_expiration};
use crate::order_type::{spec_decode_order_type, LimitOrderType};
use crate::types::{LimitOrderTranche, LimitOrderTrancheUser, Liquidity};
use crate::wire;

verus! {

// ---------------------------------------------------------------------------
// Normalization of the wire elements that carry raw protocol encodings: an
// order type as an integer code, an expiration as a raw timestamp string,
// and tick liquidity as a pair of optional payloads of which exactly one is
// owed. Every other field passes through unchanged.
// ---------------------------------------------------------------------------

/// The normalized reading of one wire tranche-user record: every field
/// passes through unchanged but the order-type code, which is decoded and
/// whose rejection is the rejection of the record.
pub open spec fn spec_normalize_tranche_user(u: wire::LimitOrderTrancheUser) -> Result<
    LimitOrderTrancheUser,
    NormalizationError,
> {
    match spec_decode_order_type(u.order_type) {
        Err(e) => Err(e),
        Ok(order_type) => Ok(
            LimitOrderTrancheUser {
                trade_pair_id: u.trade_pair_id,
                tick_index_taker_to_maker: u.tick_index_taker_to_maker,
                tranche_key: u.tranche_key,
                address: u.address,
                shares_owned: u.shares_owned,
                shares_withdrawn: u.shares_withdrawn,
                shares_cancelled: u.shares_cancelled,
                order_type,
            },
        ),
    }
}

/// Normalizes one wire tranche-user record, exactly as
/// [`spec_normalize_tranche_user`] states it.
pub fn normalize_tranche_user(u: wire::LimitOrderTrancheUser) -> (r: Result<
    LimitOrderTrancheUser,
    NormalizationError,
>)
    ensures
        r == spec_normalize_tranche_user(u),
{
    match LimitOrderType::decode(u.order_type) {
        Err(e) => Err(e),
        Ok(order_type) => Ok(
            LimitOrderTrancheUser {
                trade_pair_id: u.trade_pair_id,
                tick_index_taker_to_maker: u.tick_index_taker_to_maker,
                tranche_key: u.tranche_key,
                address: u.address,
                shares_owned: u.shares_owned,
                shares_withdrawn: u.shares_withdrawn,
                shares_cancelled: u.shares_cancelled,
                order_type,
            },
        ),
    }
}

/// The normalized reading of one wire tranche: every field passes through
/// unchanged but the raw expiration string, which is decoded on the
/// sentinel rules and whose rejection is the rejection of the tranche.
pub open spec fn spec_normalize_tranche(t: wire::LimitOrderTranche) -> Result<
    LimitOrderTranche,
    NormalizationError,
> {
    match spec_decode_expiration(t.expiration_time) {
        Err(e) => Err(e),
        Ok(expiration_time) => Ok(
            LimitOrderTranche {
                key: t.key,
                reserves_maker_denom: t.reserves_maker_denom,
                reserves_taker_denom: t.reserves_taker_denom,
                total_maker_denom: t.total_maker_denom,
                total_taker_denom: t.total_taker_denom,
                expiration_time,
                price_taker_to_maker: t.price_taker_to_maker,
            },
        ),
    }
}

/// Normalizes one wire tranche, exactly as [`spec_normalize_tranche`]
/// states it.
pub fn normalize_tranche(t: wire::LimitOrderTranche) -> (r: Result<
    LimitOrderTranche,
    NormalizationError,
>)
    ensures
        r == spec_normalize_tranche(t),
{
    match decode_expiration_time(t.expiration_time) {
        Err(e) => Err(e),
        Ok(expiration_time) => Ok(
            LimitOrderTranche {
                key: t.key,
                reserves_maker_denom: t.reserves_maker_denom,
                reserves_taker_denom: t.reserves_taker_denom,
                total_maker_denom: t.total_maker_denom,
                total_taker_denom: t.total_taker_denom,
                expiration_time,
                price_taker_to_maker: t.price_taker_to_maker,
            },
        ),
    }
}

/// The normalized reading of one wire tick-liquidity element: it is tagged
/// by whichever of the two payloads is present, and an element with both or
/// neither payload is rejected, never silently defaulted.
pub open spec fn spec_normalize_liquidity(l: wire::TickLiquidity) -> Result<
    Liquidity,
    NormalizationError,
> {
    match (l.pool_reserves, l.limit_order_tranche) {
        (Option::Some(p), Option::None) => Ok(Liquidity::PoolReserves(p)),
        (Option::None, Option::Some(t)) => match spec_normalize_tranche(t) {
            Err(e) => Err(e),
            Ok(tranche) => Ok(Liquidity::LimitOrderTranche(tranche)),
        },
        _ => Err(NormalizationError::MalformedLiquidityElement),
    }
}

/// Normalizes one wire tick-liquidity element, exactly as
/// [`spec_normalize_liquidity`] states it.
pub fn normalize_liquidity(l: wire::TickLiquidity) -> (r: Result<Liquidity, NormalizationError>)
    ensures
        r == spec_normalize_liquidity(l),
{
    match (l.pool_reserves, l.limit_order_tranche) {
        (Some(p), None) => Ok(Liquidity::PoolReserves(p)),
        (None, Some(t)) => match normalize_tranche(t) {
            Err(e) => Err(e),
            Ok(tranche) => Ok(Liquidity::LimitOrderTranche(tranche)),
        },
        _ => Err(NormalizationError::MalformedLiquidityElement),
    }
}

/// Law: normalization keeps the tranche accounting honest — the reserve
/// and total fields pass through unchanged, so a wire tranche whose
/// remaining reserves are within its totals normalizes, when it
/// normalizes, to a well-formed tranche.
pub proof fn lemma_normalize_tranche_well_formed(t: wire::LimitOrderTranche)
    requires
        t.reserves_maker_denom <= t.total_maker_denom,
        t.reserves_taker_denom <= t.total_taker_denom,
    ensures
        spec_normalize_tranche(t) matches Ok(n) ==> n.well_formed(),
{
}

/// Law: normalization keeps the share accounting honest — the share fields
/// pass through unchanged, so a wire tranche-user record whose withdrawn
/// plus cancelled shares are within the owned shares normalizes, when it
/// normalizes, to a well-formed record.
pub proof fn lemma_normalize_tranche_user_well_formed(u: wire::LimitOrderTrancheUser)
    requires
        u.shares_withdrawn + u.shares_cancelled <= u.shares_owned,
    ensures
        spec_normalize_tranche_user(u) matches Ok(n) ==> n.well_formed(),
{
}

// ---------------------------------------------------------------------------
// Normalization of whole listings: elements are normalized in order and the
// first failure, if any, is the failure of the listing.
// ---------------------------------------------------------------------------

/// The normalized reading of a listing of wire tranche-user records.
pub open spec fn spec_normalize_tranche_user_seq(s: Seq<wire::LimitOrderTrancheUser>) -> Result<
    Seq<LimitOrderTrancheUser>,
    NormalizationError,
>
    decreases s.len(),
{
    if s.len() == 0 {
        Ok(Seq::empty())
    } else {
        match spec_normalize_tranche_user(s[0]) {
            Err(e) => Err(e),
            Ok(u) => match spec_normalize_tranche_user_seq(s.drop_first()) {
                Err(e) => Err(e),
                Ok(rest) => Ok(rest.insert(0, u)),
            },
        }
    }
}

/// Normalizes a listing of wire tranche-user records, exactly as
/// [`spec_normalize_tranche_user_seq`] states it.
pub fn normalize_tranche_user_vec(mut v: Vec<wire::LimitOrderTrancheUser>) -> (r: Result<
    Vec<LimitOrderTrancheUser>,
    NormalizationError,
>)
    ensures
        r matches Ok(out) ==> spec_normalize_tranche_user_seq(v@) == Ok::<
            Seq<LimitOrderTrancheUser>,
            NormalizationError,
        >(out@),
        r matches Err(e) ==> spec_normalize_tranche_user_seq(v@) == Err::<
            Seq<LimitOrderTrancheUser>,
            NormalizationError,
        >(e),
    decreases v@.len(),
{
    if v.len() == 0 {
        Ok(Vec::new())
    } else {
        let x = v.remove(0);
        match normalize_tranche_user(x) {
            Err(e) => Err(e),
            Ok(u) => match normalize_tranche_user_vec(v) {
                Err(e) => Err(e),
                Ok(mut rest) => {
                    rest.insert(0, u);
                    Ok(rest)
                },
            },
        }
    }
}

/// The normalized reading of a listing of wire tranches.
pub open spec fn spec_normalize_tranche_seq(s: Seq<wire::LimitOrderTranche>) -> Result<
    Seq<LimitOrderTranche>,
    NormalizationError,
>
    decreases s.len(),
{
    if s.len() == 0 {
        Ok(Seq::empty())
    } else {
        match spec_normalize_tranche(s[0]) {
            Err(e) => Err(e),
            Ok(t) => match spec_normalize_tranche_seq(s.drop_first()) {
                Err(e) => Err(e),
                Ok(rest) => Ok(rest.insert(0, t)),
            },
        }
    }
}

/// Normalizes a listing of wire tranches, exactly as
/// [`spec_normalize_tranche_seq`] states it.
pub fn normalize_tranche_vec(mut v: Vec<wire::LimitOrderTranche>) -> (r: Result<
    Vec<LimitOrderTranche>,
    NormalizationError,
>)
    ensures
        r matches Ok(out) ==> spec_normalize_tranche_seq(v@) == Ok::<
            Seq<LimitOrderTranche>,
            NormalizationError,
        >(out@),
        r matches Err(e) ==> spec_normalize_tranche_seq(v@) == Err::<
            Seq<LimitOrderTranche>,
            NormalizationError,
        >(e),
    decreases v@.len(),
{
    if v.len() == 0 {
        Ok(Vec::new())
    } else {
        let x = v.remove(0);
        match normalize_tranche(x) {
            Err(e) => Err(e),
            Ok(t) => match normalize_tranche_vec(v) {
                Err(e) => Err(e),
                Ok(mut rest) => {
                    rest.insert(0, t);
                    Ok(rest)
                },
            },
        }
    }
}

/// The normalized reading of a listing of wire tick-liquidity elements.
pub open spec fn spec_normalize_liquidity_seq(s: Seq<wire::TickLiquidity>) -> Result<
    Seq<Liquidity>,
    NormalizationError,
>
    decreases s.len(),
{
    if s.len() == 0 {
        Ok(Seq::empty())
    } else {
        match spec_normalize_liquidity(s[0]) {
            Err(e) => Err(e),
            Ok(l) => match spec_normalize_liquidity_seq(s.drop_first()) {
                Err(e) => Err(e),
                Ok(rest) => Ok(rest.insert(0, l)),
            },
        }
    }
}

/// Normalizes a listing of wire tick-liquidity elements, exactly as
/// [`spec_normalize_liquidity_seq`] states it.
pub fn normalize_liquidity_vec(mut v: Vec<wire::TickLiquidity>) -> (r: Result<
    Vec<Liquidity>,
    NormalizationError,
>)
    ensures
        r matches Ok(out) ==> spec_normalize_liquidity_seq(v@) == Ok::<
            Seq<Liquidity>,
            NormalizationError,
        >(out@),
        r matches Err(e) ==> spec_normalize_liquidity_seq(v@) == Err::<
            Seq<Liquidity>,
            NormalizationError,
        >(e),
    decreases v@.len(),
{
    if v.len() == 0 {
        Ok(Vec::new())
    } else {
        let x = v.remove(0);
        match normalize_liquidity(x) {
            Err(e) => Err(e),
            Ok(l) => match normalize_liquidity_vec(v) {
                Err(e) => Err(e),
                Ok(mut rest) => {
                    rest.insert(0, l);
                    Ok(rest)
                },
            },
        }
    }
}

} // verus!
