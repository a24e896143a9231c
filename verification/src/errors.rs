//! The error taxonomy of the service.  Every failure is terminal for its
//! request; the HTTP status code is determined solely by the error kind.

use vstd::prelude::*;

verus! {

/// One kind per failure class the service can report.
#[derive(Clone, Copy, Debug, PartialEq, Eq, Structural)]
pub enum ApiError {
    /// Neither credential strategy resolved a principal (401).  The reason
    /// (missing, invalid or expired) is never disclosed.
    AuthenticationFailure,
    /// Malformed client input (400).
    ValidationFailure,
    /// Bucket or file absent (404).
    NotFound,
    /// A uniqueness constraint of the metadata store was violated (409).
    Conflict,
    /// The storage engine failed to persist bytes (500); blocks the
    /// metadata commit.
    StorageFailure,
    /// The metadata write failed after bytes were durably written (500);
    /// the blob stays orphaned, no automatic cleanup.
    PersistenceFailure,
    /// The metadata store was unreachable or failed a read (500).
    UpstreamUnavailable,
}

/// The HTTP status code owed to each error kind.
pub open spec fn spec_status_code(e: ApiError) -> u16 {
    match e {
        ApiError::AuthenticationFailure => 401,
        ApiError::ValidationFailure => 400,
        ApiError::NotFound => 404,
        ApiError::Conflict => 409,
        ApiError::StorageFailure => 500,
        ApiError::PersistenceFailure => 500,
        ApiError::UpstreamUnavailable => 500,
    }
}

impl ApiError {
    /// Status codes come from the error kind and from nothing else.
    pub fn status_code(&self) -> (code: u16)
        ensures
            code == spec_status_code(*self),
    {
        match self {
            ApiError::AuthenticationFailure => 401,
            ApiError::ValidationFailure => 400,
            ApiError::NotFound => 404,
            ApiError::Conflict => 409,
            ApiError::StorageFailure => 500,
            ApiError::PersistenceFailure => 500,
            ApiError::UpstreamUnavailable => 500,
        }
    }

    /// The generic user-visible message for each kind; no internal detail
    /// is ever disclosed.
    pub fn message(&self) -> (m: &'static str)
        ensures
            *self is AuthenticationFailure ==> m@ == "Invalid authentication"@,
            *self is ValidationFailure ==> m@ == "Invalid request"@,
            *self is NotFound ==> m@ == "Not found"@,
            *self is Conflict ==> m@ == "Already exists"@,
            *self is StorageFailure ==> m@ == "Failed to save file to storage"@,
            *self is PersistenceFailure ==> m@ == "Failed to save metadata"@,
            *self is UpstreamUnavailable ==> m@ == "Service unavailable"@,
    {
        match self {
            ApiError::AuthenticationFailure => "Invalid authentication",
            ApiError::ValidationFailure => "Invalid request",
            ApiError::NotFound => "Not found",
            ApiError::Conflict => "Already exists",
            ApiError::StorageFailure => "Failed to save file to storage",
            ApiError::PersistenceFailure => "Failed to save metadata",
            ApiError::UpstreamUnavailable => "Service unavailable",
        }
    }
}

} // verus!
