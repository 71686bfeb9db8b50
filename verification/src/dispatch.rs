//! The unified dispatch interface and the two branch services behind it.
//!
//! Both branches are adapted to one call signature,
//! `handle(request) -> Result<Response, ServiceError>`, and stored in a
//! fixed two-slot ordered collection; the dispatcher selects a slot by the
//! classification index and makes a single indirect call — no further
//! branching exists past that point. A branch's internal failure is carried
//! by the one erased error type and translated to a generic server-error
//! response.

use vstd::prelude::*;
use vstd::string::{StrSliceExecFns, StringSliceAdditionalSpecFns};
use vstd::utf8::{valid_utf8, decode_utf8, encode_utf8};
use crate::classify::{classify, spec_classify, spec_content_type, PLAIN_BRANCH, RPC_BRANCH};
use crate::greeter::{hello_message, say_hello};
use crate::message::{Request, Response};

verus! {

/// The status code of a successful response.
pub const STATUS_OK: u16 = 200;

/// The status code of the generic server-error response that carries a
/// branch's internal failure back to the caller.
pub const STATUS_INTERNAL_ERROR: u16 = 500;

/// The erased error type of the unified dispatch interface: one type able
/// to carry any branch's internal failure.
#[derive(Clone, Copy, PartialEq, Eq, Structural, Debug)]
pub enum ServiceError {
    /// The RPC branch could not read its payload as UTF-8 text.
    InvalidPayload,
}

/// The two branch services, behind one call signature.
#[derive(Clone, Copy, PartialEq, Eq, Structural, Debug)]
pub enum UnifiedService {
    /// Serves plain text: status 200 with a fixed greeting body, for any
    /// request whatever its path or body.
    PlainService,
    /// Serves the RPC method: reads the payload as the caller's name and
    /// answers with the templated greeting message.
    RpcService,
}

/// Declares `core::str::Utf8Error`, the error of `core::str::from_utf8`.
#[verifier::external_type_specification]
#[verifier::external_body]
pub struct ExUtf8Error(core::str::Utf8Error);

/// Relies on `core::str::from_utf8`: it succeeds exactly on valid UTF-8,
/// and the returned text re-encodes to the input bytes.
pub assume_specification[ core::str::from_utf8 ](v: &[u8]) -> (r: Result<&str, core::str::Utf8Error>)
    ensures
        r is Ok <==> valid_utf8(v@),
        r matches Ok(s) ==> s.spec_bytes() == v@,
;

/// The body of the plain branch's response.
pub open spec fn plain_body() -> Seq<u8> {
    "Hello, world!".spec_bytes()
}

/// What the plain branch returns, for every request.
pub open spec fn plain_response_ok(r: Response) -> bool {
    &&& r.status == STATUS_OK
    &&& r.body@ == plain_body()
    &&& r.headers@.len() == 0
}

/// The bytes of the RPC branch's reply to a payload carrying the given
/// name bytes: the greeting message, UTF-8 encoded.
pub open spec fn rpc_message_bytes(payload: Seq<u8>) -> Seq<u8> {
    encode_utf8(hello_message(decode_utf8(payload)))
}

/// What the RPC branch returns for a well-formed payload.
pub open spec fn rpc_response_ok(r: Response, payload: Seq<u8>) -> bool {
    &&& r.status == STATUS_OK
    &&& r.body@ == rpc_message_bytes(payload)
    &&& r.headers@.len() == 0
}

/// The generic server-error response standing for a branch's failure.
pub open spec fn error_response_ok(r: Response) -> bool {
    &&& r.status == STATUS_INTERNAL_ERROR
    &&& r.body@.len() == 0
    &&& r.headers@.len() == 0
}

/// The unified interface's full contract: what each branch returns for
/// every request, success and failure cases both.
pub open spec fn handle_post(svc: UnifiedService, req: Request, r: Result<Response, ServiceError>) -> bool {
    match svc {
        UnifiedService::PlainService => r matches Ok(resp) && plain_response_ok(resp),
        UnifiedService::RpcService => {
            if valid_utf8(req.body@) {
                r matches Ok(resp) && rpc_response_ok(resp, req.body@)
            } else {
                r matches Err(ServiceError::InvalidPayload)
            }
        },
    }
}

impl UnifiedService {
    /// The one call signature both branches are adapted to.
    pub fn handle(&self, req: &Request) -> (r: Result<Response, ServiceError>)
        ensures
            handle_post(*self, *req, r),
    {
        match self {
            UnifiedService::PlainService => {
                let body = "Hello, world!".as_bytes_vec();
                Ok(Response { status: STATUS_OK, headers: Vec::new(), body })
            },
            UnifiedService::RpcService => {
                match core::str::from_utf8(req.body.as_slice()) {
                    Ok(name) => {
                        let message = say_hello(name);
                        let body = message.as_str().as_bytes_vec();
                        proof {
                            broadcast use vstd::utf8::encode_utf8_decode_utf8;
                            assert(decode_utf8(req.body@) == name@);
                        }
                        Ok(Response { status: STATUS_OK, headers: Vec::new(), body })
                    },
                    Err(_) => Err(ServiceError::InvalidPayload),
                }
            },
        }
    }
}

/// What dispatch returns for every request: the selected branch's own
/// response, or the generic server-error response when the selected branch
/// fails internally.
pub open spec fn dispatch_post(req: Request, r: Response) -> bool {
    if spec_classify(spec_content_type(req)) == RPC_BRANCH as int {
        if valid_utf8(req.body@) {
            rpc_response_ok(r, req.body@)
        } else {
            error_response_ok(r)
        }
    } else {
        plain_response_ok(r)
    }
}

/// The dispatch point: the two unified services in classification order.
pub struct Dispatcher {
    pub services: Vec<UnifiedService>,
}

impl Dispatcher {
    /// Well-formed: exactly two services, the plain one at index 0 and the
    /// RPC one at index 1 — the classification index selects directly.
    pub open spec fn wf(&self) -> bool {
        &&& self.services@.len() == 2
        &&& self.services@[PLAIN_BRANCH as int] is PlainService
        &&& self.services@[RPC_BRANCH as int] is RpcService
    }

    /// Wires the two branch services into the dispatch collection.
    pub fn new() -> (r: Dispatcher)
        ensures
            r.wf(),
    {
        let mut services: Vec<UnifiedService> = Vec::new();
        services.push(UnifiedService::PlainService);
        services.push(UnifiedService::RpcService);
        Dispatcher { services }
    }

    /// Classifies the request, forwards it to the selected branch, and
    /// returns that branch's response unmodified; a branch failure becomes
    /// the generic server-error response.
    pub fn dispatch(&self, req: &Request) -> (r: Response)
        requires
            self.wf(),
        ensures
            dispatch_post(*req, r),
    {
        let idx = classify(req);
        let svc = &self.services[idx];
        match svc.handle(req) {
            Ok(resp) => resp,
            Err(_) => Response {
                status: STATUS_INTERNAL_ERROR,
                headers: Vec::new(),
                body: Vec::new(),
            },
        }
    }
}

/// Dispatch is deterministic: responses to two requests that agree on the
/// classification header and on the body agree on status, headers and body
/// — concurrent calls cannot observe each other.
pub proof fn lemma_dispatch_deterministic(req1: Request, req2: Request, r1: Response, r2: Response)
    requires
        spec_content_type(req1) == spec_content_type(req2),
        req1.body@ == req2.body@,
        dispatch_post(req1, r1),
        dispatch_post(req2, r2),
    ensures
        r1.status == r2.status,
        r1.body@ == r2.body@,
        r1.headers@.len() == r2.headers@.len(),
{
}

/// Dispatch is isolated: every successful response equals what the selected
/// branch alone would produce for that request in isolation, with no effect
/// from the other branch.
pub proof fn lemma_dispatch_isolated(req: Request, r: Response)
    requires
        dispatch_post(req, r),
    ensures
        spec_classify(spec_content_type(req)) == PLAIN_BRANCH as int
            ==> handle_post(UnifiedService::PlainService, req, Ok(r)),
        spec_classify(spec_content_type(req)) == RPC_BRANCH as int && valid_utf8(req.body@)
            ==> handle_post(UnifiedService::RpcService, req, Ok(r)),
{
}

} // verus!
