use multiplex::dispatch::{Dispatcher, ServiceError, UnifiedService, STATUS_INTERNAL_ERROR, STATUS_OK};
use multiplex::message::Request;

fn rpc_request(body: Vec<u8>) -> Request {
    let mut req = Request::new(body);
    req.add_header(b"content-type", b"application/grpc".to_vec());
    req
}

#[test]
fn plain_request_gets_the_fixed_greeting() {
    let dispatcher = Dispatcher::new();
    let req = Request::new(Vec::new());
    let resp = dispatcher.dispatch(&req);
    assert_eq!(resp.status, STATUS_OK);
    assert_eq!(resp.body, b"Hello, world!".to_vec());
    assert!(resp.headers.is_empty());
}

#[test]
fn plain_request_ignores_path_and_body() {
    let dispatcher = Dispatcher::new();
    let mut req = Request::new(b"some body".to_vec());
    req.add_header(b"content-type", b"text/plain".to_vec());
    let resp = dispatcher.dispatch(&req);
    assert_eq!(resp.status, STATUS_OK);
    assert_eq!(resp.body, b"Hello, world!".to_vec());
}

#[test]
fn rpc_request_gets_the_templated_message() {
    let dispatcher = Dispatcher::new();
    let resp = dispatcher.dispatch(&rpc_request(b"Tonic".to_vec()));
    assert_eq!(resp.status, STATUS_OK);
    assert_eq!(resp.body, b"Hello Tonic!".to_vec());
}

#[test]
fn rpc_request_with_empty_payload() {
    let dispatcher = Dispatcher::new();
    let resp = dispatcher.dispatch(&rpc_request(Vec::new()));
    assert_eq!(resp.status, STATUS_OK);
    assert_eq!(resp.body, b"Hello !".to_vec());
}

#[test]
fn rpc_request_with_invalid_payload_gets_the_server_error() {
    let dispatcher = Dispatcher::new();
    let resp = dispatcher.dispatch(&rpc_request(vec![0xff, 0xfe]));
    assert_eq!(resp.status, STATUS_INTERNAL_ERROR);
    assert!(resp.body.is_empty());
}

#[test]
fn rpc_service_reports_the_erased_error() {
    let req = rpc_request(vec![0xc0]);
    let result = UnifiedService::RpcService.handle(&req);
    assert!(matches!(result, Err(ServiceError::InvalidPayload)));
}

#[test]
fn plain_service_never_fails() {
    let req = Request::new(vec![0xff]);
    let result = UnifiedService::PlainService.handle(&req);
    let resp = result.expect("the plain branch has no error conditions");
    assert_eq!(resp.status, STATUS_OK);
    assert_eq!(resp.body, b"Hello, world!".to_vec());
}

#[test]
fn concurrent_style_mix_has_no_cross_talk() {
    let dispatcher = Dispatcher::new();
    let plain_req = Request::new(Vec::new());
    let rpc_a = rpc_request(b"A".to_vec());
    let rpc_b = rpc_request(b"B".to_vec());
    let plain_1 = dispatcher.dispatch(&plain_req);
    let rpc_resp_a = dispatcher.dispatch(&rpc_a);
    let plain_2 = dispatcher.dispatch(&plain_req);
    let rpc_resp_b = dispatcher.dispatch(&rpc_b);
    let plain_3 = dispatcher.dispatch(&plain_req);
    assert_eq!(plain_1.body, b"Hello, world!".to_vec());
    assert_eq!(plain_2.body, plain_1.body);
    assert_eq!(plain_3.body, plain_1.body);
    assert_eq!(rpc_resp_a.body, b"Hello A!".to_vec());
    assert_eq!(rpc_resp_b.body, b"Hello B!".to_vec());
}

#[test]
fn dispatch_is_deterministic() {
    let dispatcher = Dispatcher::new();
    let req = rpc_request(b"Tonic".to_vec());
    let first = dispatcher.dispatch(&req);
    let second = dispatcher.dispatch(&req);
    assert_eq!(first.status, second.status);
    assert_eq!(first.body, second.body);
}
