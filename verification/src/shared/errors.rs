//! The errors that the service answers with, and the HTTP answer for each.
use vstd::prelude::*;

verus! {

/// A database failure, carried through unchanged.
#[verifier::external_type_specification]
#[verifier::external_body]
pub struct ExSqlxError(sqlx::Error);

#[derive(Debug)]
pub enum AppError {
    Unauthorized,
    NotFound(&'static str),
    Conflict(&'static str, &'static str),
    BadRequest(&'static str, &'static str),
    Sqlx(sqlx::Error),
    Internal(String),
}

/// What an error is answered with: an HTTP status and an error body.
pub struct ErrorResponse {
    pub status: u16,
    pub code: &'static str,
    pub message: &'static str,
}

impl AppError {
    /// The HTTP status of the answer to this error.
    pub open spec fn spec_status(&self) -> u16 {
        match self {
            AppError::Unauthorized => 401,
            AppError::NotFound(_) => 404,
            AppError::Conflict(_, _) => 409,
            AppError::BadRequest(_, _) => 400,
            AppError::Sqlx(_) => 500,
            AppError::Internal(_) => 500,
        }
    }

    /// The error code of the answer to this error.
    pub open spec fn spec_code(&self) -> Seq<char> {
        match self {
            AppError::Unauthorized => "unauthorized"@,
            AppError::NotFound(code) => code@,
            AppError::Conflict(code, _) => code@,
            AppError::BadRequest(code, _) => code@,
            AppError::Sqlx(_) => "database_error"@,
            AppError::Internal(_) => "internal_error"@,
        }
    }

    /// The human-readable message of the answer to this error.
    pub open spec fn spec_message(&self) -> Seq<char> {
        match self {
            AppError::Unauthorized => "Invalid or missing API key"@,
            AppError::NotFound(_) => "Resource not found"@,
            AppError::Conflict(_, message) => message@,
            AppError::BadRequest(_, message) => message@,
            AppError::Sqlx(_) => "Database operation failed"@,
            AppError::Internal(_) => "Internal server error"@,
        }
    }

    /// The status, code and message that the error is answered with. Database
    /// and internal errors do not reveal their details.
    pub fn response_parts(&self) -> (res: ErrorResponse)
        ensures
            res.status == self.spec_status(),
            res.code@ == self.spec_code(),
            res.message@ == self.spec_message(),
    {
        match self {
            AppError::Unauthorized => ErrorResponse {
                status: 401,
                code: "unauthorized",
                message: "Invalid or missing API key",
            },
            AppError::NotFound(code) => ErrorResponse {
                status: 404,
                code: *code,
                message: "Resource not found",
            },
            AppError::Conflict(code, message) => ErrorResponse {
                status: 409,
                code: *code,
                message: *message,
            },
            AppError::BadRequest(code, message) => ErrorResponse {
                status: 400,
                code: *code,
                message: *message,
            },
            AppError::Sqlx(_) => ErrorResponse {
                status: 500,
                code: "database_error",
                message: "Database operation failed",
            },
            AppError::Internal(_) => ErrorResponse {
                status: 500,
                code: "internal_error",
                message: "Internal server error",
            },
        }
    }
}

/// The HTTP answer of each error: 401 unauthorized, 404 not found with the
/// error's code, 409 and 400 with the error's own code and message, 500 for
/// database and internal errors without their details.
pub proof fn lemma_error_answers(code: &'static str, message: &'static str, detail: String)
    ensures
        AppError::Unauthorized.spec_status() == 401,
        AppError::Unauthorized.spec_code() == "unauthorized"@,
        AppError::NotFound(code).spec_status() == 404,
        AppError::NotFound(code).spec_code() == code@,
        AppError::NotFound(code).spec_message() == "Resource not found"@,
        AppError::Conflict(code, message).spec_status() == 409,
        AppError::Conflict(code, message).spec_code() == code@,
        AppError::Conflict(code, message).spec_message() == message@,
        AppError::BadRequest(code, message).spec_status() == 400,
        AppError::BadRequest(code, message).spec_code() == code@,
        AppError::BadRequest(code, message).spec_message() == message@,
        AppError::Internal(detail).spec_status() == 500,
        AppError::Internal(detail).spec_code() == "internal_error"@,
        AppError::Internal(detail).spec_message() == "Internal server error"@,
{
}

} // verus!
