use vstd::prelude::*;
use crate::error::NormalizationError;

verus! {

/// The external protocol's zero-value date string. The protocol uses it to
/// mark just-in-time orders whose true expiry is not meaningfully
/// expressible as a timestamp, conflating "no real value" with a zero date.
pub open spec fn spec_jit_sentinel() -> Seq<char> {
    "0001-01-01T00:00:00Z"@
}

/// The unix timestamp, if any, that the external time library assigns to a
/// string: `Some` exactly on the strings it accepts as RFC 3339. The result
/// depends on the string's characters alone.
pub uninterp spec fn rfc3339_unix_seconds(s: Seq<char>) -> Option<i64>;

/// Relies on speedate's `DateTime::parse_str_rfc3339` and
/// `DateTime::timestamp`: whether a string is accepted as RFC 3339, and
/// the timestamp (seconds since epoch, offset ignored) of an accepted
/// string, are functions of its characters alone.
#[verifier::external_body]
fn parse_rfc3339_unix_seconds(s: &str) -> (r: Option<i64>)
    ensures
        r == rfc3339_unix_seconds(s@),
{
    match speedate::DateTime::parse_str_rfc3339(s) {
        Ok(dt) => Some(dt.timestamp()),
        Err(_) => None,
    }
}

/// The decoded expiration of one raw optional timestamp string:
/// - an absent string means the order never expires;
/// - the literal sentinel date decodes to timestamp `0`, never to the large
///   negative timestamp a naive RFC 3339 reading would produce;
/// - any other string is read strictly as RFC 3339, and a string that is
///   neither the sentinel nor RFC 3339 is rejected with the raw value.
pub open spec fn spec_decode_expiration(raw: Option<String>) -> Result<
    Option<i64>,
    NormalizationError,
> {
    match raw {
        Option::None => Ok(Option::None),
        Option::Some(s) => if s@ == spec_jit_sentinel() {
            Ok(Option::Some(0i64))
        } else {
            match rfc3339_unix_seconds(s@) {
                Option::Some(t) => Ok(Option::Some(t)),
                Option::None => Err(NormalizationError::TimeParseError { raw: s }),
            }
        },
    }
}

/// Decodes an optional raw expiration timestamp on the protocol's rules,
/// exactly as [`spec_decode_expiration`] states them.
pub fn decode_expiration_time(raw: Option<String>) -> (r: Result<
    Option<i64>,
    NormalizationError,
>)
    ensures
        r == spec_decode_expiration(raw),
{
    match raw {
        None => Ok(None),
        Some(s) => {
            let sentinel: String = String::from_str("0001-01-01T00:00:00Z");
            if s == sentinel {
                Ok(Some(0))
            } else {
                match parse_rfc3339_unix_seconds(s.as_str()) {
                    Some(t) => Ok(Some(t)),
                    None => Err(NormalizationError::TimeParseError { raw: s }),
                }
            }
        },
    }
}

/// Law: an absent raw timestamp decodes to an absent expiration.
pub proof fn lemma_expiration_absent()
    ensures
        spec_decode_expiration(Option::None) == Ok::<Option<i64>, NormalizationError>(
            Option::None,
        ),
{
}

/// Law: any string whose characters are exactly the sentinel date decodes
/// to the mock timestamp `0`.
pub proof fn lemma_expiration_sentinel(s: String)
    requires
        s@ == spec_jit_sentinel(),
    ensures
        spec_decode_expiration(Option::Some(s)) == Ok::<Option<i64>, NormalizationError>(
            Option::Some(0i64),
        ),
{
}

} // verus!
