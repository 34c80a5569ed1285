//! The error taxonomy shared by every operation of the crate.
//!
//! Validation and uniqueness problems are detected before any mutation;
//! wrong, missing and expired verification codes are deliberately collapsed
//! into one variant so a caller cannot tell which case applied.

use vstd::prelude::*;

verus! {

/// Everything that can go wrong in the authentication and profile flows.
#[derive(Debug, Clone)]
pub enum AppError {
    InternalError,
    UserNotFound,
    InvalidToken,
    MissingToken,
    DatabaseError(String),
    HashingError,
    TokenCreationError,
    UserAlreadyExists,
    EmailError(String),
    InvalidOrExpiredCode,
    InvalidInput(String),
}

impl AppError {
    /// The HTTP status that this error is reported with.
    pub fn status_code(&self) -> (code: u16)
        ensures
            code == self.spec_status_code(),
    {
        match self {
            AppError::UserNotFound => 404,
            AppError::InvalidToken => 401,
            AppError::MissingToken => 401,
            AppError::UserAlreadyExists => 409,
            AppError::EmailError(_) => 502,
            AppError::InvalidOrExpiredCode => 400,
            AppError::InvalidInput(_) => 400,
            AppError::DatabaseError(_) => 500,
            AppError::InternalError => 500,
            AppError::HashingError => 500,
            AppError::TokenCreationError => 500,
        }
    }

    /// The status that [`Self::status_code`] returns for each variant.
    pub open spec fn spec_status_code(&self) -> u16 {
        match self {
            AppError::UserNotFound => 404,
            AppError::InvalidToken => 401,
            AppError::MissingToken => 401,
            AppError::UserAlreadyExists => 409,
            AppError::EmailError(_) => 502,
            AppError::InvalidOrExpiredCode => 400,
            AppError::InvalidInput(_) => 400,
            AppError::DatabaseError(_) => 500,
            AppError::InternalError => 500,
            AppError::HashingError => 500,
            AppError::TokenCreationError => 500,
        }
    }

    /// A human-readable description, used by the HTTP layer in place of
    /// a `Display` implementation.
    pub fn message(&self) -> (msg: String)
        ensures
            msg@ == self.spec_message(),
    {
        match self {
            AppError::InternalError => String::from_str("internal server error"),
            AppError::UserNotFound => String::from_str("user not found"),
            AppError::InvalidToken => String::from_str("invalid token"),
            AppError::MissingToken => String::from_str("missing token"),
            AppError::DatabaseError(m) => String::from_str("database error: ").concat(m.as_str()),
            AppError::HashingError => String::from_str("hashing error"),
            AppError::TokenCreationError => String::from_str("token creation error"),
            AppError::UserAlreadyExists => String::from_str("user already exists"),
            AppError::EmailError(m) => String::from_str("email error: ").concat(m.as_str()),
            AppError::InvalidOrExpiredCode => String::from_str("invalid or expired code"),
            AppError::InvalidInput(m) => String::from_str("invalid input: ").concat(m.as_str()),
        }
    }

    /// The text that [`Self::message`] returns for each variant.
    pub open spec fn spec_message(&self) -> Seq<char> {
        match self {
            AppError::InternalError => "internal server error"@,
            AppError::UserNotFound => "user not found"@,
            AppError::InvalidToken => "invalid token"@,
            AppError::MissingToken => "missing token"@,
            AppError::DatabaseError(m) => "database error: "@ + m@,
            AppError::HashingError => "hashing error"@,
            AppError::TokenCreationError => "token creation error"@,
            AppError::UserAlreadyExists => "user already exists"@,
            AppError::EmailError(m) => "email error: "@ + m@,
            AppError::InvalidOrExpiredCode => "invalid or expired code"@,
            AppError::InvalidInput(m) => "invalid input: "@ + m@,
        }
    }
}

} // verus!
