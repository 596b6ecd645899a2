//! Module-side client for a line-delimited JSON broker protocol.
//!
//! The crate holds the parts of the client that decide things: the document
//! model, the message set and its document encoding, request-id generation,
//! and the session engine that correlates responses with pending requests and
//! routes inbound requests to local handlers. Transport and JSON text live
//! with the caller.
pub mod models;
pub mod protocol;
pub mod session;
pub mod utils;

pub use models::{BaseMessage, Number, Value};
pub use utils::{Error, Result};
