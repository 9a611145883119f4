//! The closed error taxonomy, with the mapping from each variant to its
//! HTTP status code and to the stable message rendered to callers.
//!
//! Internal causes are never carried in the variants, so no error can echo
//! a storage or hashing detail to the caller.

use vstd::prelude::*;

verus! {

/// Every failure the core can report. One variant per taxonomy entry;
/// `AuthenticationFailed` deliberately covers both "no such identity" and
/// "wrong secret", so the two are indistinguishable to a caller.
#[derive(Clone, Copy, Debug, PartialEq, Eq, Structural)]
pub enum AppError {
    /// Malformed input; the caller must fix the request.
    ValidationError,
    /// The identity is already registered.
    IdentityTaken,
    /// Unknown identity or wrong secret; the two are never told apart.
    AuthenticationFailed,
    /// Internal failure of the password-hashing primitive.
    HashingError,
    /// Transient failure of an underlying store.
    StorageError,
    /// The account was committed but no session token could be minted.
    SessionIssuanceFailed,
    /// The token is unknown or its session has expired.
    SessionNotFound,
}

impl AppError {
    /// The HTTP status code this error is rendered with.
    pub open spec fn spec_status_code(self) -> u16 {
        match self {
            AppError::ValidationError => 400,
            AppError::IdentityTaken => 409,
            AppError::AuthenticationFailed => 401,
            AppError::HashingError => 500,
            AppError::StorageError => 500,
            AppError::SessionIssuanceFailed => 500,
            AppError::SessionNotFound => 401,
        }
    }

    /// The stable message rendered to callers; it names the failure class
    /// only, never an internal cause.
    pub open spec fn spec_message(self) -> Seq<char> {
        match self {
            AppError::ValidationError => "invalid credentials"@,
            AppError::IdentityTaken => "identity already registered"@,
            AppError::AuthenticationFailed => "authentication failed"@,
            AppError::HashingError => "internal error"@,
            AppError::StorageError => "storage unavailable"@,
            AppError::SessionIssuanceFailed => "session could not be issued"@,
            AppError::SessionNotFound => "unauthenticated"@,
        }
    }

    pub fn status_code(&self) -> (code: u16)
        ensures
            code == self.spec_status_code(),
    {
        match self {
            AppError::ValidationError => 400,
            AppError::IdentityTaken => 409,
            AppError::AuthenticationFailed => 401,
            AppError::HashingError => 500,
            AppError::StorageError => 500,
            AppError::SessionIssuanceFailed => 500,
            AppError::SessionNotFound => 401,
        }
    }

    pub fn message(&self) -> (m: String)
        ensures
            m@ == self.spec_message(),
    {
        match self {
            AppError::ValidationError => "invalid credentials".to_owned(),
            AppError::IdentityTaken => "identity already registered".to_owned(),
            AppError::AuthenticationFailed => "authentication failed".to_owned(),
            AppError::HashingError => "internal error".to_owned(),
            AppError::StorageError => "storage unavailable".to_owned(),
            AppError::SessionIssuanceFailed => "session could not be issued".to_owned(),
            AppError::SessionNotFound => "unauthenticated".to_owned(),
        }
    }
}

} // verus!
