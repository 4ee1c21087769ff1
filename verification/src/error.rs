use vstd::prelude::*;

verus! {

/// A typed failure of response normalization.
///
/// Every normalizer either returns a fully valid value or fails with one of
/// these errors; each carries the offending raw value so that a caller can
/// act on it without access to internal state.
#[derive(Clone, Debug, PartialEq, Eq)]
pub enum NormalizationError {
    /// An integer order-type code outside the valid range was received from
    /// the external protocol; `value` is the offending code and
    /// `valid_min ..= valid_max` the accepted range.
    InvalidEnum { value: i32, valid_min: i32, valid_max: i32 },
    /// A timestamp string was neither the recognized sentinel nor valid
    /// RFC 3339; `raw` is the offending string.
    TimeParseError { raw: String },
    /// A polymorphic liquidity element had zero or two concrete payloads
    /// populated instead of exactly one.
    MalformedLiquidityElement,
}

} // verus!
