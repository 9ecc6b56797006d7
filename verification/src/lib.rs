//! HTTP-to-message-bus gateway core.
//!
//! The library covers the bus-facing logic of the gateway: identity and
//! topic addressing, the generic message envelope and its wire codec, the
//! correlation store that pairs requests with responses, the connection
//! state machine with its subscription plan, the HTTP request bridge and
//! the event forwarder. Transport, HTTP listeners and process wiring live
//! outside the library.

pub mod addressing;
pub mod bridge;
pub mod client;
pub mod codec;
pub mod correlation;
pub mod envelope;
pub mod errors;
pub mod forward;
pub mod headers;
pub mod ids;
pub mod json;
pub mod parsing;
pub mod strmap;
pub mod text;
