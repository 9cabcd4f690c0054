//! Error taxonomy shared by every component of the identity layer.

use vstd::prelude::*;

verus! {

/// The I/O error carried by [`AppError::Io`]; produced only around the library.
#[verifier::external_type_specification]
#[verifier::external_body]
pub struct ExIoError(std::io::Error);

/// The JSON error carried by [`AppError::Json`]; produced only around the library.
#[verifier::external_type_specification]
#[verifier::external_body]
pub struct ExJsonError(serde_json::Error);

/// Free-form details attached to an error body.
#[verifier::external_type_specification]
#[verifier::external_body]
pub struct ExJsonValue(serde_json::Value);

/// Body of an error reply: a stable code, a readable message, optional details.
#[derive(Debug)]
pub struct ErrorResponse {
    pub error: String,
    pub message: String,
    pub details: Option<serde_json::Value>,
}

impl ErrorResponse {
    pub fn new(error: String, message: String) -> (r: ErrorResponse)
        ensures
            r.error@ == error@,
            r.message@ == message@,
            r.details is None,
    {
        ErrorResponse { error, message, details: None }
    }

    pub fn with_details(self, details: serde_json::Value) -> (r: ErrorResponse)
        ensures
            r.error == self.error,
            r.message == self.message,
            r.details == Some(details),
    {
        let mut s = self;
        s.details = Some(details);
        s
    }
}

/// Every failure the identity layer reports.
#[derive(Debug)]
pub enum AppError {
    NotFound(String),
    Unauthorized(String),
    Forbidden(String),
    Validation(String),
    Conflict(String),
    BadRequest(String),
    Internal(String),
    Io(std::io::Error),
    Json(serde_json::Error),
}

pub type AppResult<T> = Result<T, AppError>;

/// The one message every credential failure carries, whatever check failed.
pub open spec fn invalid_credentials_message() -> Seq<char> {
    "Invalid username or password"@
}

/// The one message every token failure carries, malformed or expired alike.
pub open spec fn invalid_token_message() -> Seq<char> {
    "Invalid or expired token"@
}

pub open spec fn error_code_of(e: AppError) -> Seq<char> {
    match e {
        AppError::NotFound(_) => "NOT_FOUND"@,
        AppError::Unauthorized(_) => "UNAUTHORIZED"@,
        AppError::Forbidden(_) => "FORBIDDEN"@,
        AppError::Validation(_) => "VALIDATION_ERROR"@,
        AppError::Conflict(_) => "CONFLICT"@,
        AppError::BadRequest(_) => "BAD_REQUEST"@,
        AppError::Internal(_) => "INTERNAL_ERROR"@,
        AppError::Io(_) => "IO_ERROR"@,
        AppError::Json(_) => "JSON_ERROR"@,
    }
}

pub open spec fn status_code_of(e: AppError) -> u16 {
    match e {
        AppError::NotFound(_) => 404,
        AppError::Unauthorized(_) => 401,
        AppError::Forbidden(_) => 403,
        AppError::Validation(_) => 422,
        AppError::Conflict(_) => 409,
        AppError::BadRequest(_) => 400,
        AppError::Internal(_) | AppError::Io(_) | AppError::Json(_) => 500,
    }
}

pub open spec fn is_invalid_credentials(e: AppError) -> bool {
    e matches AppError::Unauthorized(m) && m@ == invalid_credentials_message()
}

pub open spec fn is_invalid_token(e: AppError) -> bool {
    e matches AppError::Unauthorized(m) && m@ == invalid_token_message()
}

impl AppError {
    /// Stable machine-readable code of the error class.
    pub fn error_code(&self) -> (r: &'static str)
        ensures
            r@ == error_code_of(*self),
    {
        match self {
            AppError::NotFound(_) => "NOT_FOUND",
            AppError::Unauthorized(_) => "UNAUTHORIZED",
            AppError::Forbidden(_) => "FORBIDDEN",
            AppError::Validation(_) => "VALIDATION_ERROR",
            AppError::Conflict(_) => "CONFLICT",
            AppError::BadRequest(_) => "BAD_REQUEST",
            AppError::Internal(_) => "INTERNAL_ERROR",
            AppError::Io(_) => "IO_ERROR",
            AppError::Json(_) => "JSON_ERROR",
        }
    }

    /// HTTP status class the error is reported with.
    pub fn status_code(&self) -> (r: u16)
        ensures
            r == status_code_of(*self),
    {
        match self {
            AppError::NotFound(_) => 404,
            AppError::Unauthorized(_) => 401,
            AppError::Forbidden(_) => 403,
            AppError::Validation(_) => 422,
            AppError::Conflict(_) => 409,
            AppError::BadRequest(_) => 400,
            AppError::Internal(_) | AppError::Io(_) | AppError::Json(_) => 500,
        }
    }

    /// The generic login failure: identical for an unknown user and a wrong password.
    pub fn invalid_credentials() -> (r: AppError)
        ensures
            is_invalid_credentials(r),
    {
        AppError::Unauthorized(String::from_str("Invalid username or password"))
    }

    /// The generic token failure: identical for a malformed and an expired token.
    pub fn invalid_token() -> (r: AppError)
        ensures
            is_invalid_token(r),
    {
        AppError::Unauthorized(String::from_str("Invalid or expired token"))
    }

    pub fn song_not_found(filename: &str) -> (r: AppError)
        ensures
            r matches AppError::NotFound(m) && m@ == "Song not found: "@ + filename@,
    {
        AppError::NotFound(String::from_str("Song not found: ").concat(filename))
    }

    pub fn path_traversal() -> (r: AppError)
        ensures
            r matches AppError::BadRequest(m) && m@ == "Invalid path: path traversal not allowed"@,
    {
        AppError::BadRequest(String::from_str("Invalid path: path traversal not allowed"))
    }
}

/// Turns an absent value into a `NotFound` error.
pub trait OptionExt<T>: Sized {
    fn ok_or_not_found(self, msg: String) -> (r: AppResult<T>);
}

impl<T> OptionExt<T> for Option<T> {
    fn ok_or_not_found(self, msg: String) -> (r: AppResult<T>)
        ensures
            match self {
                Some(v) => r == Ok::<T, AppError>(v),
                None => r matches Err(AppError::NotFound(m)) && m == msg,
            },
    {
        match self {
            Some(v) => Ok(v),
            None => Err(AppError::NotFound(msg)),
        }
    }
}

} // verus!
