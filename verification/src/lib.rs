//! Bridging logic between a connection-model server runtime and
//! handler-model request handlers: header reconstruction, body size
//! reporting, chunk forwarding and the handler construction protocol.

pub mod body;
pub mod body_laws;
pub mod flat;
pub mod flat_laws;
pub mod headers;
pub mod request;
pub mod response;
pub mod round_trip;
pub mod service;
