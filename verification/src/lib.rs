//! A request-identification layer for an HTTP server pipeline.
//!
//! On every inbound request the interceptor draws a fresh random identifier,
//! appends it to the request's header list under the well-known name
//! `x-request-id`, stores it in the request's typed state slot, and then
//! delegates to the wrapped stage unchanged. A typed accessor lets downstream
//! handlers retrieve the identifier without touching the header list.

pub mod generator;
pub mod laws;
pub mod middleware;
pub mod request;
