//! Error codes and API errors.

use vstd::prelude::*;
use vstd::string::*;

verus! {

/// Error codes that map to specific HTTP status codes.
#[derive(PartialEq, Eq, Structural, Clone, Copy, Debug)]
pub enum ErrorCode {
    /// 400 Bad Request - Invalid input or validation failure.
    ValidationError,
    /// 401 Unauthorized - Authentication required.
    Unauthorized,
    /// 403 Forbidden - Insufficient permissions.
    Forbidden,
    /// 404 Not Found - Resource doesn't exist.
    NotFound,
    /// 409 Conflict - Resource already exists or state conflict.
    Conflict,
    /// 422 Unprocessable Entity - Semantic validation failure.
    UnprocessableEntity,
    /// 429 Too Many Requests - Rate limit exceeded.
    RateLimitExceeded,
    /// 500 Internal Server Error - Unexpected error.
    InternalError,
    /// 502 Bad Gateway - External service failure.
    ExternalServiceError,
    /// 503 Service Unavailable - Temporary unavailability.
    ServiceUnavailable,
}

impl ErrorCode {
    /// The HTTP status that a code stands for.
    pub open spec fn spec_status(self) -> u16 {
        match self {
            ErrorCode::ValidationError => 400,
            ErrorCode::Unauthorized => 401,
            ErrorCode::Forbidden => 403,
            ErrorCode::NotFound => 404,
            ErrorCode::Conflict => 409,
            ErrorCode::UnprocessableEntity => 422,
            ErrorCode::RateLimitExceeded => 429,
            ErrorCode::InternalError => 500,
            ErrorCode::ExternalServiceError => 502,
            ErrorCode::ServiceUnavailable => 503,
        }
    }

    /// Get the HTTP status code for this error code.
    pub fn status_code(&self) -> (r: u16)
        ensures
            r == self.spec_status(),
    {
        match self {
            ErrorCode::ValidationError => 400,
            ErrorCode::Unauthorized => 401,
            ErrorCode::Forbidden => 403,
            ErrorCode::NotFound => 404,
            ErrorCode::Conflict => 409,
            ErrorCode::UnprocessableEntity => 422,
            ErrorCode::RateLimitExceeded => 429,
            ErrorCode::InternalError => 500,
            ErrorCode::ExternalServiceError => 502,
            ErrorCode::ServiceUnavailable => 503,
        }
    }

    /// The code's name as the API writes it.
    pub open spec fn spec_name(self) -> Seq<char> {
        match self {
            ErrorCode::ValidationError => "VALIDATION_ERROR"@,
            ErrorCode::Unauthorized => "UNAUTHORIZED"@,
            ErrorCode::Forbidden => "FORBIDDEN"@,
            ErrorCode::NotFound => "NOT_FOUND"@,
            ErrorCode::Conflict => "CONFLICT"@,
            ErrorCode::UnprocessableEntity => "UNPROCESSABLE_ENTITY"@,
            ErrorCode::RateLimitExceeded => "RATE_LIMIT_EXCEEDED"@,
            ErrorCode::InternalError => "INTERNAL_ERROR"@,
            ErrorCode::ExternalServiceError => "EXTERNAL_SERVICE_ERROR"@,
            ErrorCode::ServiceUnavailable => "SERVICE_UNAVAILABLE"@,
        }
    }

    /// Get the error code as a string.
    pub fn as_str(&self) -> (r: &'static str)
        ensures
            r@ == self.spec_name(),
    {
        match self {
            ErrorCode::ValidationError => "VALIDATION_ERROR",
            ErrorCode::Unauthorized => "UNAUTHORIZED",
            ErrorCode::Forbidden => "FORBIDDEN",
            ErrorCode::NotFound => "NOT_FOUND",
            ErrorCode::Conflict => "CONFLICT",
            ErrorCode::UnprocessableEntity => "UNPROCESSABLE_ENTITY",
            ErrorCode::RateLimitExceeded => "RATE_LIMIT_EXCEEDED",
            ErrorCode::InternalError => "INTERNAL_ERROR",
            ErrorCode::ExternalServiceError => "EXTERNAL_SERVICE_ERROR",
            ErrorCode::ServiceUnavailable => "SERVICE_UNAVAILABLE",
        }
    }
}

/// Every error code maps to a client (4xx) or server (5xx) error status, and
/// to 5xx exactly for the internal, external-service and unavailable codes.
pub proof fn lemma_status_is_error_class(code: ErrorCode)
    ensures
        400 <= code.spec_status() <= 599,
        (code.spec_status() >= 500) <==> (code == ErrorCode::InternalError
            || code == ErrorCode::ExternalServiceError || code == ErrorCode::ServiceUnavailable),
{
}

/// Distinct error codes have distinct statuses and distinct names.
pub proof fn lemma_codes_distinguishable(a: ErrorCode, b: ErrorCode)
    requires
        a != b,
    ensures
        a.spec_status() != b.spec_status(),
        a.spec_name() != b.spec_name(),
{
    reveal_strlit("VALIDATION_ERROR");
    reveal_strlit("UNAUTHORIZED");
    reveal_strlit("FORBIDDEN");
    reveal_strlit("NOT_FOUND");
    reveal_strlit("CONFLICT");
    reveal_strlit("UNPROCESSABLE_ENTITY");
    reveal_strlit("RATE_LIMIT_EXCEEDED");
    reveal_strlit("INTERNAL_ERROR");
    reveal_strlit("EXTERNAL_SERVICE_ERROR");
    reveal_strlit("SERVICE_UNAVAILABLE");
    assert(a.spec_name().len() != b.spec_name().len() || a.spec_name()[0] != b.spec_name()[0]
        || a.spec_name()[1] != b.spec_name()[1] || a.spec_name()[2] != b.spec_name()[2]);
}

/// API error with code and message.
#[derive(Clone, Debug)]
pub struct ApiError {
    pub code: ErrorCode,
    pub message: String,
    pub details: Option<String>,
}

/// `Field '<field>' is required`.
pub open spec fn required_message(field: Seq<char>) -> Seq<char> {
    "Field '"@ + field + "' is required"@
}

/// `<entity> with id '<id>' not found`.
pub open spec fn not_found_message(entity: Seq<char>, id: Seq<char>) -> Seq<char> {
    entity + " with id '"@ + id + "' not found"@
}

/// The message of a forbidden error.
pub open spec fn forbidden_message() -> Seq<char> {
    "You don't have permission to perform this action"@
}

impl ApiError {
    /// Create a new API error.
    pub fn new(code: ErrorCode, message: String) -> (r: Self)
        ensures
            r.code == code,
            r.message@ == message@,
            r.details is None,
    {
        ApiError { code, message, details: None }
    }

    /// The error as text: its message (what the error displays).
    pub fn text(&self) -> (r: String)
        ensures
            r@ == self.message@,
    {
        self.message.clone()
    }

    /// Create a new API error with details.
    pub fn with_details(code: ErrorCode, message: String, details: String) -> (r: Self)
        ensures
            r.code == code,
            r.message@ == message@,
            r.details matches Some(d) && d@ == details@,
    {
        ApiError { code, message, details: Some(details) }
    }

    /// Create a validation error.
    pub fn validation(message: String) -> (r: Self)
        ensures
            r.code == ErrorCode::ValidationError,
            r.message@ == message@,
            r.details is None,
    {
        Self::new(ErrorCode::ValidationError, message)
    }

    /// Create a validation error for a required field.
    pub fn required(field: &str) -> (r: Self)
        ensures
            r.code == ErrorCode::ValidationError,
            r.message@ == required_message(field@),
            r.details is None,
    {
        let mut m = String::from_str("Field '");
        m.append(field);
        m.append("' is required");
        Self::validation(m)
    }

    /// Create an unauthorized error.
    pub fn unauthorized(message: String) -> (r: Self)
        ensures
            r.code == ErrorCode::Unauthorized,
            r.message@ == message@,
            r.details is None,
    {
        Self::new(ErrorCode::Unauthorized, message)
    }

    /// Create a forbidden error.
    pub fn forbidden() -> (r: Self)
        ensures
            r.code == ErrorCode::Forbidden,
            r.message@ == forbidden_message(),
            r.details is None,
    {
        Self::new(ErrorCode::Forbidden, String::from_str("You don't have permission to perform this action"))
    }

    /// Create a not found error.
    pub fn not_found(entity: &str, id: &str) -> (r: Self)
        ensures
            r.code == ErrorCode::NotFound,
            r.message@ == not_found_message(entity@, id@),
            r.details is None,
    {
        let mut m = String::from_str(entity);
        m.append(" with id '");
        m.append(id);
        m.append("' not found");
        Self::new(ErrorCode::NotFound, m)
    }

    /// Create a conflict error.
    pub fn conflict(message: String) -> (r: Self)
        ensures
            r.code == ErrorCode::Conflict,
            r.message@ == message@,
            r.details is None,
    {
        Self::new(ErrorCode::Conflict, message)
    }

    /// Create an internal error.
    pub fn internal(message: String) -> (r: Self)
        ensures
            r.code == ErrorCode::InternalError,
            r.message@ == message@,
            r.details is None,
    {
        Self::new(ErrorCode::InternalError, message)
    }

    /// Create an external service error.
    pub fn external_service(message: String) -> (r: Self)
        ensures
            r.code == ErrorCode::ExternalServiceError,
            r.message@ == message@,
            r.details is None,
    {
        Self::new(ErrorCode::ExternalServiceError, message)
    }

    /// Get the HTTP status code.
    pub fn status_code(&self) -> (r: u16)
        ensures
            r == self.code.spec_status(),
    {
        self.code.status_code()
    }
}

/// Extension trait for Option to convert to Result.
pub trait OptionExt<T>: Sized {
    /// Convert Option to Result with not found error.
    fn ok_or_not_found(self, entity: &str, id: &str) -> Result<T, ApiError>;
}

impl<T> OptionExt<T> for Option<T> {
    fn ok_or_not_found(self, entity: &str, id: &str) -> (r: Result<T, ApiError>)
        ensures
            match r {
                Ok(v) => self == Some(v),
                Err(e) => self is None && e.code == ErrorCode::NotFound
                    && e.message@ == not_found_message(entity@, id@) && e.details is None,
            },
    {
        match self {
            Some(v) => Ok(v),
            None => Err(ApiError::not_found(entity, id)),
        }
    }
}

/// Extension trait for results whose error is its message: maps any error
/// to an API error that keeps the message as details.
pub trait ResultExt<T>: Sized {
    /// Map any error to an internal API error.
    fn map_internal_err(self, message: &str) -> Result<T, ApiError>;

    /// Map any error to an external service error.
    fn map_external_err(self, message: &str) -> Result<T, ApiError>;
}

impl<T> ResultExt<T> for Result<T, String> {
    fn map_internal_err(self, message: &str) -> (r: Result<T, ApiError>)
        ensures
            match r {
                Ok(v) => self == Ok::<T, String>(v),
                Err(e) => self matches Err(d) && e.code == ErrorCode::InternalError
                    && e.message@ == message@ && (e.details matches Some(x) && x@ == d@),
            },
    {
        match self {
            Ok(v) => Ok(v),
            Err(d) => Err(ApiError::with_details(ErrorCode::InternalError, String::from_str(message), d)),
        }
    }

    fn map_external_err(self, message: &str) -> (r: Result<T, ApiError>)
        ensures
            match r {
                Ok(v) => self == Ok::<T, String>(v),
                Err(e) => self matches Err(d) && e.code == ErrorCode::ExternalServiceError
                    && e.message@ == message@ && (e.details matches Some(x) && x@ == d@),
            },
    {
        match self {
            Ok(v) => Ok(v),
            Err(d) => Err(ApiError::with_details(ErrorCode::ExternalServiceError, String::from_str(message), d)),
        }
    }
}

/// Standard error response body.
#[derive(Debug)]
pub struct ErrorResponse {
    pub code: String,
    pub message: String,
    pub details: Option<String>,
}

impl ErrorResponse {
    /// The response body for an API error: the code's name, the message and the details.
    pub fn from_error(error: ApiError) -> (r: Self)
        ensures
            r.code@ == error.code.spec_name(),
            r.message@ == error.message@,
            r.details == error.details,
    {
        ErrorResponse {
            code: String::from_str(error.code.as_str()),
            message: error.message,
            details: error.details,
        }
    }
}

} // verus!
