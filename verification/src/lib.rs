//! A library for serving two protocol families — plain text traffic and a
//! binary RPC protocol — behind one listening endpoint.
//!
//! The core is the demultiplexing path: a total classification function that
//! routes each request to one of exactly two branch services by its declared
//! content type, a unified dispatch interface that lets both branches stand
//! behind one call signature, and a listener lifecycle whose readiness signal
//! fires only once the socket actually accepts connections.

pub mod classify;
pub mod dispatch;
pub mod greeter;
pub mod headers;
pub mod lifecycle;
pub mod message;
