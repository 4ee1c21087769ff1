use vstd::prelude::*;

verus! {

/// Caller-facing cursor-based pagination request.
#[derive(Clone, Debug, PartialEq, Eq)]
pub struct PageRequest {
    /// Opaque byte cursor naming the page to start from.
    pub key: Vec<u8>,
    pub offset: u64,
    pub limit: u64,
    pub count_total: bool,
    pub reverse: bool,
}

/// Caller-facing pagination response.
#[derive(Clone, Debug, PartialEq, Eq)]
pub struct PageResponse {
    /// Cursor of the next page, when one exists.
    pub next_key: Option<Vec<u8>>,
    pub total: Option<u64>,
}

/// The external protocol's pagination request shape.
#[derive(Clone, Debug, PartialEq, Eq)]
pub struct WirePageRequest {
    pub key: Vec<u8>,
    pub offset: u64,
    pub limit: u64,
    pub count_total: bool,
    pub reverse: bool,
}

/// The external protocol's pagination response shape.
#[derive(Clone, Debug, PartialEq, Eq)]
pub struct WirePageResponse {
    pub next_key: Option<Vec<u8>>,
    pub total: Option<u64>,
}

/// The wire image of a pagination request: absent stays absent, a present
/// request maps field for field with no reinterpretation.
pub open spec fn spec_page_request_to_wire(p: Option<PageRequest>) -> Option<WirePageRequest> {
    match p {
        Option::None => Option::None,
        Option::Some(p) => Option::Some(
            WirePageRequest {
                key: p.key,
                offset: p.offset,
                limit: p.limit,
                count_total: p.count_total,
                reverse: p.reverse,
            },
        ),
    }
}

/// The caller-facing reading of a wire pagination response: absent stays
/// absent, a present response maps field for field.
pub open spec fn spec_page_response_from_wire(w: Option<WirePageResponse>) -> Option<
    PageResponse,
> {
    match w {
        Option::None => Option::None,
        Option::Some(w) => Option::Some(PageResponse { next_key: w.next_key, total: w.total }),
    }
}

/// Translates a caller-facing pagination cursor into the external
/// protocol's request shape. No normalization, clamping, or validation of
/// the bounds happens here; a present cursor is never dropped.
pub fn to_wire(p: Option<PageRequest>) -> (r: Option<WirePageRequest>)
    ensures
        r == spec_page_request_to_wire(p),
{
    match p {
        None => None,
        Some(p) => Some(
            WirePageRequest {
                key: p.key,
                offset: p.offset,
                limit: p.limit,
                count_total: p.count_total,
                reverse: p.reverse,
            },
        ),
    }
}

/// Translates an external pagination response back into the caller-facing
/// shape, field for field.
pub fn from_wire(w: Option<WirePageResponse>) -> (r: Option<PageResponse>)
    ensures
        r == spec_page_response_from_wire(w),
{
    match w {
        None => None,
        Some(w) => Some(PageResponse { next_key: w.next_key, total: w.total }),
    }
}

/// Law: the request-side codec keeps every field of a present cursor
/// unchanged — reading the wire value back recovers the whole input — and
/// maps an absent cursor to an absent wire value.
pub proof fn lemma_page_request_round_trip(p: PageRequest)
    ensures
        spec_page_request_to_wire(Option::Some(p)) matches Option::Some(w) && w.key == p.key
            && w.offset == p.offset && w.limit == p.limit && w.count_total == p.count_total
            && w.reverse == p.reverse,
        spec_page_request_to_wire(Option::None) == Option::None::<WirePageRequest>,
{
}

/// Law: the request-side codec is injective — two cursors with the same
/// wire image are the same cursor.
pub proof fn lemma_page_request_to_wire_injective(p: Option<PageRequest>, q: Option<PageRequest>)
    requires
        spec_page_request_to_wire(p) == spec_page_request_to_wire(q),
    ensures
        p == q,
{
}

/// Law: the response-side codec keeps both fields of a present response
/// unchanged — a present next-page cursor is never dropped — and maps an
/// absent response to an absent value.
pub proof fn lemma_page_response_round_trip(w: WirePageResponse)
    ensures
        spec_page_response_from_wire(Option::Some(w)) matches Option::Some(p) && p.next_key
            == w.next_key && p.total == w.total,
        spec_page_response_from_wire(Option::None) == Option::None::<PageResponse>,
{
}

} // verus!
