use multiplex::classify::{classify, classify_value, PLAIN_BRANCH, RPC_BRANCH};
use multiplex::message::Request;

fn request_with_content_type(value: &[u8]) -> Request {
    let mut req = Request::new(Vec::new());
    req.add_header(b"content-type", value.to_vec());
    req
}

#[test]
fn marker_value_selects_rpc_branch() {
    let req = request_with_content_type(b"application/grpc");
    assert_eq!(classify(&req), RPC_BRANCH);
}

#[test]
fn absent_header_selects_plain_branch() {
    let req = Request::new(b"anything".to_vec());
    assert_eq!(classify(&req), PLAIN_BRANCH);
}

#[test]
fn other_value_selects_plain_branch() {
    let req = request_with_content_type(b"text/plain");
    assert_eq!(classify(&req), PLAIN_BRANCH);
}

#[test]
fn marker_with_trailing_variation_selects_plain_branch() {
    let req = request_with_content_type(b"application/grpc ");
    assert_eq!(classify(&req), PLAIN_BRANCH);
    let req = request_with_content_type(b"application/grpc+proto");
    assert_eq!(classify(&req), PLAIN_BRANCH);
}

#[test]
fn marker_with_leading_variation_selects_plain_branch() {
    let req = request_with_content_type(b" application/grpc");
    assert_eq!(classify(&req), PLAIN_BRANCH);
}

#[test]
fn value_comparison_is_byte_exact() {
    let req = request_with_content_type(b"APPLICATION/GRPC");
    assert_eq!(classify(&req), PLAIN_BRANCH);
}

#[test]
fn header_name_lookup_is_case_insensitive() {
    let mut req = Request::new(Vec::new());
    req.add_header(b"Content-Type", b"application/grpc".to_vec());
    assert_eq!(classify(&req), RPC_BRANCH);
}

#[test]
fn first_header_value_decides() {
    let mut req = Request::new(Vec::new());
    req.add_header(b"content-type", b"text/plain".to_vec());
    req.add_header(b"content-type", b"application/grpc".to_vec());
    assert_eq!(classify(&req), PLAIN_BRANCH);
}

#[test]
fn classify_value_matches_classify() {
    assert_eq!(classify_value(Some(b"application/grpc")), RPC_BRANCH);
    assert_eq!(classify_value(Some(b"application/json")), PLAIN_BRANCH);
    assert_eq!(classify_value(None), PLAIN_BRANCH);
}
