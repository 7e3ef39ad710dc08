//! The failure signals of the service and the HTTP status that stands for each.

use vstd::prelude::*;

verus! {

/// Status of a successful login or token resolution.
pub const STATUS_OK: u16 = 200;

/// Status of a successful registration.
pub const STATUS_CREATED: u16 = 201;

/// Status that stands for [`AuthError::Unauthorized`].
pub const STATUS_UNAUTHORIZED: u16 = 401;

/// Status that stands for [`AuthError::Conflict`].
pub const STATUS_CONFLICT: u16 = 409;

/// Status that stands for [`AuthError::InternalError`].
pub const STATUS_INTERNAL_ERROR: u16 = 500;

/// The three outward failure signals. Nothing finer than these ever leaves an
/// operation, so a caller cannot tell which check failed.
#[derive(Clone, Copy, Debug, PartialEq, Eq, Structural)]
pub enum AuthError {
    /// The username is already registered.
    Conflict,
    /// Bad credentials, or an invalid, expired, malformed or missing token.
    Unauthorized,
    /// A fault of the store, of the hasher or of the signer.
    InternalError,
}

impl AuthError {
    /// The HTTP status that reports this failure.
    pub open spec fn status(self) -> u16 {
        match self {
            AuthError::Conflict => STATUS_CONFLICT,
            AuthError::Unauthorized => STATUS_UNAUTHORIZED,
            AuthError::InternalError => STATUS_INTERNAL_ERROR,
        }
    }

    /// Computes [`AuthError::status`].
    pub fn status_code(&self) -> (code: u16)
        ensures
            code == self.status(),
    {
        match self {
            AuthError::Conflict => STATUS_CONFLICT,
            AuthError::Unauthorized => STATUS_UNAUTHORIZED,
            AuthError::InternalError => STATUS_INTERNAL_ERROR,
        }
    }
}

/// The outcome of an operation that yields a string, with the string taken as
/// the sequence of its characters.
pub open spec fn outcome_view(outcome: Result<String, AuthError>) -> Result<Seq<char>, AuthError> {
    match outcome {
        Ok(text) => Ok(text@),
        Err(e) => Err(e),
    }
}

} // verus!
