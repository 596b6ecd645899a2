pub mod errors;
pub mod error;
pub mod request_keys;
pub mod request_types;
pub mod assoc;
pub mod text;

pub use error::{Error, Result};
