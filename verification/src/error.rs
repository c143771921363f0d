//! The unified API error type: each variant maps to one HTTP status code,
//! one machine-readable type string, and one human-readable message.

use vstd::prelude::*;
use crate::auth::AuthError;
use crate::text::concat2;

verus! {

/// A request-level error, carrying a message for the client.
#[derive(Debug, Clone)]
pub enum ApiError {
    /// Invalid input from the client (400).
    BadRequest(String),
    /// Authentication required (401).
    Unauthorized(String),
    /// Authenticated but lacking permissions (403).
    Forbidden(String),
    /// The resource does not exist (404).
    NotFound(String),
    /// The resource already exists or the state conflicts (409).
    Conflict(String),
    /// Validation failed (422).
    ValidationError(String),
    /// An unexpected internal failure (500).
    InternalError(String),
    /// A temporary failure (503).
    ServiceUnavailable(String),
}

/// The HTTP status code of each error variant.
pub open spec fn spec_status_code(e: ApiError) -> u16 {
    match e {
        ApiError::BadRequest(_) => 400,
        ApiError::Unauthorized(_) => 401,
        ApiError::Forbidden(_) => 403,
        ApiError::NotFound(_) => 404,
        ApiError::Conflict(_) => 409,
        ApiError::ValidationError(_) => 422,
        ApiError::InternalError(_) => 500,
        ApiError::ServiceUnavailable(_) => 503,
    }
}

/// The type string of each error variant.
pub open spec fn spec_error_type(e: ApiError) -> Seq<char> {
    match e {
        ApiError::BadRequest(_) => "bad_request"@,
        ApiError::Unauthorized(_) => "unauthorized"@,
        ApiError::Forbidden(_) => "forbidden"@,
        ApiError::NotFound(_) => "not_found"@,
        ApiError::Conflict(_) => "conflict"@,
        ApiError::ValidationError(_) => "validation_error"@,
        ApiError::InternalError(_) => "internal_error"@,
        ApiError::ServiceUnavailable(_) => "service_unavailable"@,
    }
}

/// The full message of each error variant: a fixed prefix and the carried
/// text.
pub open spec fn spec_message(e: ApiError) -> Seq<char> {
    match e {
        ApiError::BadRequest(m) => "Bad request: "@ + m@,
        ApiError::Unauthorized(m) => "Unauthorized: "@ + m@,
        ApiError::Forbidden(m) => "Forbidden: "@ + m@,
        ApiError::NotFound(m) => "Not found: "@ + m@,
        ApiError::Conflict(m) => "Conflict: "@ + m@,
        ApiError::ValidationError(m) => "Validation error: "@ + m@,
        ApiError::InternalError(m) => "Internal error: "@ + m@,
        ApiError::ServiceUnavailable(m) => "Service unavailable: "@ + m@,
    }
}

impl ApiError {
    /// The HTTP status code for this error.
    pub fn status_code(&self) -> (r: u16)
        ensures
            r == spec_status_code(*self),
    {
        match self {
            ApiError::BadRequest(_) => 400,
            ApiError::Unauthorized(_) => 401,
            ApiError::Forbidden(_) => 403,
            ApiError::NotFound(_) => 404,
            ApiError::Conflict(_) => 409,
            ApiError::ValidationError(_) => 422,
            ApiError::InternalError(_) => 500,
            ApiError::ServiceUnavailable(_) => 503,
        }
    }

    /// The error type string for the JSON response.
    pub fn error_type(&self) -> (r: &'static str)
        ensures
            r@ == spec_error_type(*self),
    {
        match self {
            ApiError::BadRequest(_) => "bad_request",
            ApiError::Unauthorized(_) => "unauthorized",
            ApiError::Forbidden(_) => "forbidden",
            ApiError::NotFound(_) => "not_found",
            ApiError::Conflict(_) => "conflict",
            ApiError::ValidationError(_) => "validation_error",
            ApiError::InternalError(_) => "internal_error",
            ApiError::ServiceUnavailable(_) => "service_unavailable",
        }
    }

    /// The full message shown to the client.
    pub fn message(&self) -> (r: String)
        ensures
            r@ == spec_message(*self),
    {
        match self {
            ApiError::BadRequest(m) => concat2("Bad request: ", m.as_str()),
            ApiError::Unauthorized(m) => concat2("Unauthorized: ", m.as_str()),
            ApiError::Forbidden(m) => concat2("Forbidden: ", m.as_str()),
            ApiError::NotFound(m) => concat2("Not found: ", m.as_str()),
            ApiError::Conflict(m) => concat2("Conflict: ", m.as_str()),
            ApiError::ValidationError(m) => concat2("Validation error: ", m.as_str()),
            ApiError::InternalError(m) => concat2("Internal error: ", m.as_str()),
            ApiError::ServiceUnavailable(m) => concat2("Service unavailable: ", m.as_str()),
        }
    }
}

/// The HTTP status code each authentication error maps to.
pub open spec fn spec_auth_status(e: AuthError) -> u16 {
    match e {
        AuthError::InvalidCredentials => 401,
        AuthError::InvalidToken => 401,
        AuthError::TokenGenerationFailed => 500,
        AuthError::Unauthorized => 403,
    }
}

impl AuthError {
    /// The HTTP status code for this error.
    pub fn status_code(&self) -> (r: u16)
        ensures
            r == spec_auth_status(*self),
    {
        match self {
            AuthError::InvalidCredentials => 401,
            AuthError::InvalidToken => 401,
            AuthError::TokenGenerationFailed => 500,
            AuthError::Unauthorized => 403,
        }
    }

    /// The message of this error.
    pub fn message(&self) -> (r: &'static str)
        ensures
            r@ == match *self {
                AuthError::InvalidCredentials => "Invalid email or password"@,
                AuthError::InvalidToken => "Invalid or expired token"@,
                AuthError::TokenGenerationFailed => "Failed to generate token"@,
                AuthError::Unauthorized => "Unauthorized access"@,
            },
    {
        match self {
            AuthError::InvalidCredentials => "Invalid email or password",
            AuthError::InvalidToken => "Invalid or expired token",
            AuthError::TokenGenerationFailed => "Failed to generate token",
            AuthError::Unauthorized => "Unauthorized access",
        }
    }
}

} // verus!
