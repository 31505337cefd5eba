//! Error payloads handed to the presentation layer.
//!
//! The cache itself never raises an error towards its readers; these types
//! describe the body of an error response when the presentation layer decides
//! to surface "no data yet" (or any other condition) as a failure.

use vstd::prelude::*;

verus! {

/// The HTTP status code used for an error the service cannot classify.
pub const INTERNAL_SERVER_ERROR: u16 = 500;

/// A human-readable error payload: a message and the status code it is
/// served with.
pub struct Error {
    /// What went wrong, for the client.
    pub message: String,
    /// HTTP status code the payload is served with.
    pub code: u16,
}

/// The conditions a request handler can fail with.
pub enum ApiError {
    /// An error the service cannot classify further.
    Unknown(Error),
}

/// The body of an error response: the status code repeated for clients that
/// cannot read it from the transport, and the error payload itself.
pub struct ErrorResponse {
    /// HTTP status code of the response.
    pub status: u16,
    /// The error payload.
    pub error: Error,
}

impl From<ApiError> for ErrorResponse {
    /// Every `ApiError` is served as an internal server error carrying its
    /// payload unchanged.
    fn from(value: ApiError) -> (r: Self) {
        match value {
            ApiError::Unknown(e) => Self { status: INTERNAL_SERVER_ERROR, error: e },
        }
    }
}

impl vstd::std_specs::convert::FromSpecImpl<ApiError> for ErrorResponse {
    open spec fn obeys_from_spec() -> bool {
        true
    }

    open spec fn from_spec(value: ApiError) -> Self {
        match value {
            ApiError::Unknown(e) => ErrorResponse { status: INTERNAL_SERVER_ERROR, error: e },
        }
    }
}

} // verus!
