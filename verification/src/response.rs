//! The error taxonomy of the request handlers and its mapping to HTTP
//! status codes, together with the fixed response strings.

use vstd::prelude::*;

verus! {

/// Outcome of a single filesystem call, as the surrounding I/O layer
/// reports it: the one distinction the handlers ever draw is whether the
/// target was absent or something else went wrong.
#[derive(Clone, Copy, Debug, PartialEq, Eq, Structural)]
pub enum FsError {
    NotFound,
    Other,
}

/// The three failure classes a handler can answer with.
#[derive(Clone, Copy, Debug, PartialEq, Eq, Structural)]
pub enum ApiError {
    BadRequest,
    NotFound,
    Internal,
}

impl ApiError {
    /// The HTTP status code each failure class is reported as.
    pub fn status_code(&self) -> (code: u16)
        ensures
            code == match *self {
                ApiError::BadRequest => 400u16,
                ApiError::NotFound => 404u16,
                ApiError::Internal => 500u16,
            },
    {
        match *self {
            ApiError::BadRequest => 400,
            ApiError::NotFound => 404,
            ApiError::Internal => 500,
        }
    }
}

} // verus!
