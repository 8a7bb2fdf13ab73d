use vstd::prelude::*;

verus! {

/// The failures that abort one run of the message pipeline.
#[derive(Debug, PartialEq, Eq)]
pub enum Error {
    /// The request's signature does not match the configured token.
    InvalidSignature,
    /// The configured model name names no known upstream variant.
    UnsupportedModel,
    /// No persisted record exists yet for the message id.
    NotFound,
    /// The upstream chat-completion call failed.
    HttpError(String),
    /// The conversation store failed.
    DatabaseError(String),
    /// An I/O failure at the boundary.
    IoError(String),
    /// A payload could not be encoded or decoded.
    JsonError(String),
}

/// HTTP status of the failure response for each error.
pub open spec fn spec_status_code(e: Error) -> u16 {
    match e {
        Error::InvalidSignature => 400,
        Error::UnsupportedModel => 400,
        _ => 500,
    }
}

impl Error {
    /// The status code the boundary layer answers with for this error.
    pub fn status_code(&self) -> (r: u16)
        ensures
            r == spec_status_code(*self),
    {
        match self {
            Error::InvalidSignature => 400,
            Error::UnsupportedModel => 400,
            _ => 500,
        }
    }
}

} // verus!
