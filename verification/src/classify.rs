//! The content-type dispatcher: a pure, total classification function that
//! maps every inbound request to one of exactly two branch indices.
//!
//! A request whose `content-type` header value equals, byte for byte, the
//! RPC protocol's canonical media-type marker goes to the RPC branch; every
//! other request — header absent, any other value, or the marker with any
//! leading or trailing variation — goes to the plain branch. There is no
//! error path: the result space has no unresolved state.

use vstd::prelude::*;
use vstd::string::StringSliceAdditionalSpecFns;
use crate::message::{Request, bytes_eq, spec_lookup};

verus! {

/// The index of the plain-text branch service.
pub const PLAIN_BRANCH: usize = 0;

/// The index of the RPC branch service.
pub const RPC_BRANCH: usize = 1;

/// The RPC marker: the canonical media-type token of the RPC protocol.
pub open spec fn rpc_marker() -> Seq<u8> {
    "application/grpc".spec_bytes()
}

/// The classification header's key, in its canonical lower-case form.
pub open spec fn content_type_key() -> Seq<u8> {
    "content-type".spec_bytes()
}

/// Total classification of a content-type header value (`None` when the
/// header is absent): the RPC branch exactly on a byte-for-byte match with
/// the RPC marker, the plain branch in every other case.
pub open spec fn spec_classify(content_type: Option<Seq<u8>>) -> int {
    if content_type == Some(rpc_marker()) {
        RPC_BRANCH as int
    } else {
        PLAIN_BRANCH as int
    }
}

/// The value a request's header map holds under the content-type key.
pub open spec fn spec_content_type(req: Request) -> Option<Seq<u8>> {
    spec_lookup(req.headers@, content_type_key())
}

/// Classifies a bare content-type value.
pub fn classify_value(content_type: Option<&[u8]>) -> (branch: usize)
    ensures
        content_type matches Some(v) ==> branch == spec_classify(Some(v@)),
        content_type is None ==> branch == spec_classify(None::<Seq<u8>>),
        branch == PLAIN_BRANCH || branch == RPC_BRANCH,
{
    match content_type {
        None => PLAIN_BRANCH,
        Some(v) => {
            let marker: &[u8] = "application/grpc".as_bytes();
            if bytes_eq(v, marker) {
                RPC_BRANCH
            } else {
                PLAIN_BRANCH
            }
        },
    }
}

/// Classifies a request by its content-type header. Total: every request
/// maps to exactly one of the two branch indices.
pub fn classify(req: &Request) -> (branch: usize)
    ensures
        branch == spec_classify(spec_content_type(*req)),
        branch == RPC_BRANCH <==> spec_content_type(*req) == Some(rpc_marker()),
        branch == PLAIN_BRANCH || branch == RPC_BRANCH,
{
    let key: &[u8] = "content-type".as_bytes();
    match req.header_value(key) {
        Some(v) => classify_value(Some(v.as_slice())),
        None => classify_value(None),
    }
}

} // verus!
