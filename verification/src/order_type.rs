use vstd::prelude::*;
use crate::error::NormalizationError;

verus! {

/// The closed set of order kinds of the exchange protocol.
///
/// The integer codes produced by [`LimitOrderType::encode`] are load-bearing
/// wire values fixed by the external protocol and must not be renumbered.
#[derive(Clone, Copy, Debug, PartialEq, Eq, Structural)]
pub enum LimitOrderType {
    GoodTilCancelled,
    FillOrKill,
    ImmediateOrCancel,
    JustInTime,
    GoodTilTime,
}

/// The wire code of each order kind: the single mapping table shared by the
/// encode and decode directions.
pub open spec fn spec_encode_order_type(t: LimitOrderType) -> i32 {
    match t {
        LimitOrderType::GoodTilCancelled => 0,
        LimitOrderType::FillOrKill => 1,
        LimitOrderType::ImmediateOrCancel => 2,
        LimitOrderType::JustInTime => 3,
        LimitOrderType::GoodTilTime => 4,
    }
}

/// The inverse reading of the mapping table: a code in `0 ..= 4` names a
/// variant, any other code is rejected.
pub open spec fn spec_decode_order_type(code: i32) -> Result<LimitOrderType, NormalizationError> {
    if code == 0 {
        Ok(LimitOrderType::GoodTilCancelled)
    } else if code == 1 {
        Ok(LimitOrderType::FillOrKill)
    } else if code == 2 {
        Ok(LimitOrderType::ImmediateOrCancel)
    } else if code == 3 {
        Ok(LimitOrderType::JustInTime)
    } else if code == 4 {
        Ok(LimitOrderType::GoodTilTime)
    } else {
        Err(NormalizationError::InvalidEnum { value: code, valid_min: 0, valid_max: 4 })
    }
}

impl LimitOrderType {
    /// Encodes this order kind as its fixed wire code. Total: every variant
    /// has exactly one code, the declared numeric tag.
    pub fn encode(self) -> (code: i32)
        ensures
            code == spec_encode_order_type(self),
    {
        match self {
            LimitOrderType::GoodTilCancelled => 0,
            LimitOrderType::FillOrKill => 1,
            LimitOrderType::ImmediateOrCancel => 2,
            LimitOrderType::JustInTime => 3,
            LimitOrderType::GoodTilTime => 4,
        }
    }

    /// Decodes a wire code into an order kind; fails with
    /// [`NormalizationError::InvalidEnum`] exactly on the codes outside
    /// `0 ..= 4`.
    pub fn decode(code: i32) -> (r: Result<LimitOrderType, NormalizationError>)
        ensures
            r == spec_decode_order_type(code),
            r is Ok <==> 0 <= code <= 4,
    {
        match code {
            0 => Ok(LimitOrderType::GoodTilCancelled),
            1 => Ok(LimitOrderType::FillOrKill),
            2 => Ok(LimitOrderType::ImmediateOrCancel),
            3 => Ok(LimitOrderType::JustInTime),
            4 => Ok(LimitOrderType::GoodTilTime),
            _ => Err(NormalizationError::InvalidEnum { value: code, valid_min: 0, valid_max: 4 }),
        }
    }
}

/// Law: the two directions of the order-type codec are exact inverses over
/// the valid domain — decoding the code of any variant gives that variant
/// back.
pub proof fn lemma_order_type_round_trip(t: LimitOrderType)
    ensures
        spec_decode_order_type(spec_encode_order_type(t)) == Ok::<LimitOrderType, NormalizationError>(t),
{
}

/// Law: the encode direction is injective — distinct variants never share a
/// wire code.
pub proof fn lemma_order_type_encode_injective(a: LimitOrderType, b: LimitOrderType)
    requires
        spec_encode_order_type(a) == spec_encode_order_type(b),
    ensures
        a == b,
{
}

} // verus!
