//! The error taxonomy: every internal failure kind maps to one fixed
//! status and machine-readable code. Internal and backend failures keep
//! their detail server-side and reach the caller as a generic message;
//! every other kind echoes its detail.
use vstd::prelude::*;
use vstd::string::StringExecFns;

verus! {

/// The closed set of failure kinds a request can surface.
#[derive(Debug)]
pub enum ApiError {
    Unauthorized(String),
    Forbidden(String),
    NotFound(String),
    BadRequest(String),
    Validation(String),
    Conflict(String),
    TooManyRequests(String),
    ServiceUnavailable(String),
    Internal(String),
    Aws(String),
}

/// What an error response carries back to the caller.
pub struct ErrorResponse {
    pub status: u16,
    pub error: String,
    pub code: String,
    pub timestamp: String,
}

/// The one HTTP status of each kind.
pub open spec fn status_of(e: ApiError) -> u16 {
    match e {
        ApiError::Unauthorized(_) => 401,
        ApiError::Forbidden(_) => 403,
        ApiError::NotFound(_) => 404,
        ApiError::BadRequest(_) => 400,
        ApiError::Validation(_) => 422,
        ApiError::Conflict(_) => 409,
        ApiError::TooManyRequests(_) => 429,
        ApiError::ServiceUnavailable(_) => 503,
        ApiError::Internal(_) => 500,
        ApiError::Aws(_) => 500,
    }
}

/// The one machine-readable code of each kind.
pub open spec fn code_of(e: ApiError) -> Seq<char> {
    match e {
        ApiError::Unauthorized(_) => "UNAUTHORIZED"@,
        ApiError::Forbidden(_) => "FORBIDDEN"@,
        ApiError::NotFound(_) => "NOT_FOUND"@,
        ApiError::BadRequest(_) => "BAD_REQUEST"@,
        ApiError::Validation(_) => "VALIDATION_ERROR"@,
        ApiError::Conflict(_) => "CONFLICT"@,
        ApiError::TooManyRequests(_) => "TOO_MANY_REQUESTS"@,
        ApiError::ServiceUnavailable(_) => "SERVICE_UNAVAILABLE"@,
        ApiError::Internal(_) => "INTERNAL_ERROR"@,
        ApiError::Aws(_) => "SERVICE_ERROR"@,
    }
}

/// The message the caller sees: the detail, except for internal and
/// backend failures, whose detail never leaks.
pub open spec fn message_of(e: ApiError) -> Seq<char> {
    match e {
        ApiError::Unauthorized(m) => m@,
        ApiError::Forbidden(m) => m@,
        ApiError::NotFound(m) => m@,
        ApiError::BadRequest(m) => m@,
        ApiError::Validation(m) => m@,
        ApiError::Conflict(m) => m@,
        ApiError::TooManyRequests(m) => m@,
        ApiError::ServiceUnavailable(m) => m@,
        ApiError::Internal(_) => "An internal error occurred"@,
        ApiError::Aws(_) => "A service error occurred. Please try again."@,
    }
}

/// Relies on chrono::Utc::now and DateTime::to_rfc3339: the moment the
/// response is built, rendered as an RFC 3339 timestamp.
#[verifier::external_body]
fn now_rfc3339() -> String {
    chrono::Utc::now().to_rfc3339()
}

impl ApiError {
    /// The HTTP status this kind maps to.
    pub fn status_code(&self) -> (s: u16)
        ensures
            s == status_of(*self),
    {
        match self {
            ApiError::Unauthorized(_) => 401,
            ApiError::Forbidden(_) => 403,
            ApiError::NotFound(_) => 404,
            ApiError::BadRequest(_) => 400,
            ApiError::Validation(_) => 422,
            ApiError::Conflict(_) => 409,
            ApiError::TooManyRequests(_) => 429,
            ApiError::ServiceUnavailable(_) => 503,
            ApiError::Internal(_) => 500,
            ApiError::Aws(_) => 500,
        }
    }

    /// The machine-readable code this kind maps to.
    pub fn error_code(&self) -> (c: &'static str)
        ensures
            c@ == code_of(*self),
    {
        match self {
            ApiError::Unauthorized(_) => "UNAUTHORIZED",
            ApiError::Forbidden(_) => "FORBIDDEN",
            ApiError::NotFound(_) => "NOT_FOUND",
            ApiError::BadRequest(_) => "BAD_REQUEST",
            ApiError::Validation(_) => "VALIDATION_ERROR",
            ApiError::Conflict(_) => "CONFLICT",
            ApiError::TooManyRequests(_) => "TOO_MANY_REQUESTS",
            ApiError::ServiceUnavailable(_) => "SERVICE_UNAVAILABLE",
            ApiError::Internal(_) => "INTERNAL_ERROR",
            ApiError::Aws(_) => "SERVICE_ERROR",
        }
    }

    /// The message the caller sees.
    pub fn public_message(&self) -> (m: String)
        ensures
            m@ == message_of(*self),
    {
        match self {
            ApiError::Unauthorized(m) => m.clone(),
            ApiError::Forbidden(m) => m.clone(),
            ApiError::NotFound(m) => m.clone(),
            ApiError::BadRequest(m) => m.clone(),
            ApiError::Validation(m) => m.clone(),
            ApiError::Conflict(m) => m.clone(),
            ApiError::TooManyRequests(m) => m.clone(),
            ApiError::ServiceUnavailable(m) => m.clone(),
            ApiError::Internal(_) => String::from_str("An internal error occurred"),
            ApiError::Aws(_) => String::from_str("A service error occurred. Please try again."),
        }
    }

    /// The whole error response: the kind's fixed status and code, the
    /// non-leaking message, and a timestamp from the clock.
    pub fn into_response(self) -> (r: ErrorResponse)
        ensures
            r.status == status_of(self),
            r.error@ == message_of(self),
            r.code@ == code_of(self),
    {
        let status = self.status_code();
        let code = String::from_str(self.error_code());
        let error = self.public_message();
        ErrorResponse { status, error, code, timestamp: now_rfc3339() }
    }
}

} // verus!
