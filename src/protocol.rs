pub mod base_protocol;
pub mod json_protocol;

pub use base_protocol::BaseProtocol;
