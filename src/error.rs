//! The error type of the library.

use vstd::prelude::*;

verus! {

/// A URL that could not be parsed, as reported by the url parser.
#[verifier::external_type_specification]
#[verifier::external_body]
pub struct ExUrlError(reqwest::UrlError);

/// Why a reply body could not be read as a `Response`.
#[derive(Debug)]
pub enum JsonError {
    /// The body could not be read from the connection; the transport's message.
    Body { message: String },
    /// The body is not JSON text; the parser's message.
    Syntax { message: String },
    /// The body is JSON, but does not have the shape of a `Response`.
    Schema,
}

/// A domain-specific error type.
#[derive(Debug)]
#[allow(inconsistent_fields)]
pub enum Error {
    /// A request failed to execute; there is no valid response. Holds the
    /// transport's message.
    RequestFailed { message: String },
    /// A URL could not be parsed.
    InvalidUrl { source: reqwest::UrlError },
    /// The response did not hold a valid `Response`.
    InvalidJSON { source: JsonError },
}

impl Error {
    /// A short description of the error's kind.
    pub fn kind_name(&self) -> (r: &'static str) {
        match self {
            Error::RequestFailed { .. } => "request failed",
            Error::InvalidUrl { .. } => "invalid URL",
            Error::InvalidJSON { .. } => "invalid JSON",
        }
    }
}

} // verus!
