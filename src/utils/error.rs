use crate::utils::text::{decimal, push_decimal, push_text};
use vstd::prelude::*;

verus! {

/// A failure of a module operation.
#[derive(Debug)]
pub enum Error {
    /// Raised inside this module: a usage error or a lost completion.
    Internal(String),
    /// An error code sent by the broker in an error frame.
    FromJuno(u32),
}

pub type Result<T> = core::result::Result<T, Error>;

pub const INTERNAL_PREFIX: &'static str = "Module internal error: ";

pub const REMOTE_PREFIX: &'static str = "Juno error code: ";

/// The human-readable text of an error.
pub open spec fn error_text(e: Error) -> Seq<char> {
    match e {
        Error::Internal(s) => INTERNAL_PREFIX@ + s@,
        Error::FromJuno(code) => REMOTE_PREFIX@ + decimal(code as nat),
    }
}

impl Error {
    /// The human-readable text of this error.
    pub fn to_string(&self) -> (r: String)
        ensures
            r@ == error_text(*self),
    {
        let mut out = String::new();
        match self {
            Error::Internal(s) => {
                push_text(&mut out, INTERNAL_PREFIX);
                push_text(&mut out, s.as_str());
            },
            Error::FromJuno(code) => {
                push_text(&mut out, REMOTE_PREFIX);
                push_decimal(&mut out, *code as u128);
            },
        }
        out
    }
}

} // verus!
