//! Error taxonomy of the service, and its mapping to HTTP status codes.
//!
//! Authentication failures (`TokenMalformed`, `TokenInvalid`,
//! `SessionNotFound`) are surfaced uniformly as 401 so that a client cannot
//! tell which check failed; storage-layer failures are converted to the
//! generic `InternalFailure` before they cross the boundary.

use vstd::prelude::*;

verus! {

/// Everything that can go wrong at the service boundary.
#[derive(Clone, Copy, Debug, PartialEq, Eq, Structural)]
pub enum ApiError {
    /// Registration with a username that is already taken.
    DuplicateUsername,
    /// Unknown user or wrong password; one outward signal for both.
    InvalidCredentials,
    /// The account exists and the password matches, but the user is disabled.
    UserDisabled,
    /// Missing authorization header, or one without the exact `Bearer ` prefix.
    TokenMalformed,
    /// The token failed signature or expiry validation.
    TokenInvalid,
    /// No live session backs the presented token (revoked, expired or unknown).
    SessionNotFound,
    /// A record (user or clip) does not exist or is not visible.
    NotFound,
    /// Pagination parameters outside the accepted range.
    InvalidPagination,
    /// The store could not be reached or timed out.
    StoreUnavailable,
    /// Any unexpected failure; raw causes never reach the client.
    InternalFailure,
}

/// The HTTP status code that each error is reported with.
pub fn error_status(e: &ApiError) -> (s: u16)
    ensures
        s == spec_error_status(*e),
{
    match e {
        ApiError::DuplicateUsername => 400,
        ApiError::InvalidCredentials => 401,
        ApiError::UserDisabled => 403,
        ApiError::TokenMalformed => 401,
        ApiError::TokenInvalid => 401,
        ApiError::SessionNotFound => 401,
        ApiError::NotFound => 404,
        ApiError::InvalidPagination => 400,
        ApiError::StoreUnavailable => 500,
        ApiError::InternalFailure => 500,
    }
}

/// Status mapping at the specification level: all authentication failures
/// share 401, duplicate names and bad pagination are client errors, missing
/// records are 404, and everything unexpected is a 500.
pub open spec fn spec_error_status(e: ApiError) -> u16 {
    match e {
        ApiError::DuplicateUsername => 400,
        ApiError::InvalidCredentials => 401,
        ApiError::UserDisabled => 403,
        ApiError::TokenMalformed => 401,
        ApiError::TokenInvalid => 401,
        ApiError::SessionNotFound => 401,
        ApiError::NotFound => 404,
        ApiError::InvalidPagination => 400,
        ApiError::StoreUnavailable => 500,
        ApiError::InternalFailure => 500,
    }
}

/// A generic, human-readable message for each error. No stack traces or
/// internal identifiers are ever exposed.
pub fn error_message(e: &ApiError) -> (m: &'static str)
    ensures
        m@ == spec_error_message(*e),
{
    match e {
        ApiError::DuplicateUsername => "username already exists",
        ApiError::InvalidCredentials => "invalid username or password",
        ApiError::UserDisabled => "user account is disabled",
        ApiError::TokenMalformed => "missing or malformed authorization header",
        ApiError::TokenInvalid => "invalid token",
        ApiError::SessionNotFound => "token is expired or invalid",
        ApiError::NotFound => "record not found",
        ApiError::InvalidPagination => "invalid pagination parameters",
        ApiError::StoreUnavailable => "store unavailable",
        ApiError::InternalFailure => "internal error",
    }
}

/// Message mapping at the specification level.
pub open spec fn spec_error_message(e: ApiError) -> Seq<char> {
    match e {
        ApiError::DuplicateUsername => "username already exists"@,
        ApiError::InvalidCredentials => "invalid username or password"@,
        ApiError::UserDisabled => "user account is disabled"@,
        ApiError::TokenMalformed => "missing or malformed authorization header"@,
        ApiError::TokenInvalid => "invalid token"@,
        ApiError::SessionNotFound => "token is expired or invalid"@,
        ApiError::NotFound => "record not found"@,
        ApiError::InvalidPagination => "invalid pagination parameters"@,
        ApiError::StoreUnavailable => "store unavailable"@,
        ApiError::InternalFailure => "internal error"@,
    }
}

} // verus!
