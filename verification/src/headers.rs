//! Classification straight off the wire's header map.
//!
//! The serving stack hands each inbound request's header map to the
//! dispatch point's selector; this module reads the content-type entry out
//! of that outside map and applies the same total classification rule as
//! [`crate::classify`].

use vstd::prelude::*;
use crate::classify::{classify_value, content_type_key, rpc_marker, spec_classify, PLAIN_BRANCH, RPC_BRANCH};

verus! {

/// Declares `http::HeaderValue`, the outside header-value type.
#[verifier::external_type_specification]
#[verifier::external_body]
pub struct ExHeaderValue(http::HeaderValue);

/// Declares `http::HeaderMap`, the outside header-map type.
#[verifier::external_type_specification]
#[verifier::external_body]
#[verifier::reject_recursive_types(T)]
pub struct ExHeaderMap<T>(http::HeaderMap<T>);

/// What an outside header map holds, as far as this library reads it: for
/// each header name present — keyed by its lower-case byte form, the form
/// the map itself stores — the bytes of the first value under that name.
pub uninterp spec fn first_header_values(headers: http::HeaderMap) -> Map<Seq<u8>, Seq<u8>>;

/// The content-type value an outside header map holds, if any.
pub open spec fn spec_header_content_type(headers: http::HeaderMap) -> Option<Seq<u8>> {
    if first_header_values(headers).contains_key(content_type_key()) {
        Some(first_header_values(headers)[content_type_key()])
    } else {
        None
    }
}

/// Relies on `http::HeaderMap::get`, which returns a reference to the first
/// value stored under the key — here `http::header::CONTENT_TYPE`, the
/// lower-case `content-type` name — or nothing when the key is absent, and
/// on `http::HeaderValue::as_bytes`, which yields the value's bytes.
#[verifier::external_body]
fn content_type_bytes(headers: &http::HeaderMap) -> (r: Option<Vec<u8>>)
    ensures
        r matches Some(v) ==> first_header_values(*headers).contains_key(content_type_key())
            && first_header_values(*headers)[content_type_key()] == v@,
        r is None ==> !first_header_values(*headers).contains_key(content_type_key()),
{
    headers.get(http::header::CONTENT_TYPE).map(|v| v.as_bytes().to_vec())
}

/// Classifies a request by its outside header map, with the same total
/// rule as [`crate::classify::classify`]: the RPC branch exactly when the
/// content-type value equals the RPC marker byte for byte, the plain
/// branch in every other case.
pub fn classify_headers(headers: &http::HeaderMap) -> (branch: usize)
    ensures
        branch == spec_classify(spec_header_content_type(*headers)),
        branch == RPC_BRANCH <==> spec_header_content_type(*headers) == Some(rpc_marker()),
        branch == PLAIN_BRANCH || branch == RPC_BRANCH,
{
    match content_type_bytes(headers) {
        Some(v) => classify_value(Some(v.as_slice())),
        None => classify_value(None),
    }
}

} // verus!
