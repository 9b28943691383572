//! The closed set of failures, and the one table from a failure to what a
//! client sees of it.

use vstd::prelude::*;
use vstd::string::StringExecFns;

use crate::response::ApiResponse;
use crate::response::Response;

verus! {

/// A failure as contracts see it: the variant, and the text it carries.
pub enum Failure {
    DatabaseError(Seq<char>),
    NotFound(Seq<char>),
    BadRequest(Seq<char>),
    Unauthorized(Seq<char>),
    InternalError(Seq<char>),
    ValidationError(Seq<char>),
}

impl Failure {
    /// The human-readable text the failure carries.
    pub open spec fn message(self) -> Seq<char> {
        match self {
            Failure::DatabaseError(text) => text,
            Failure::NotFound(text) => text,
            Failure::BadRequest(text) => text,
            Failure::Unauthorized(text) => text,
            Failure::InternalError(text) => text,
            Failure::ValidationError(text) => text,
        }
    }

    /// The HTTP status a client sees for the failure.
    pub open spec fn status(self) -> u16 {
        match self {
            Failure::DatabaseError(_) => 500,
            Failure::NotFound(_) => 404,
            Failure::BadRequest(_) => 400,
            Failure::Unauthorized(_) => 401,
            Failure::InternalError(_) => 500,
            Failure::ValidationError(_) => 422,
        }
    }

    /// The stable code a client sees for the failure.
    pub open spec fn code(self) -> Seq<char> {
        match self {
            Failure::DatabaseError(_) => "DATABASE_ERROR"@,
            Failure::NotFound(_) => "NOT_FOUND"@,
            Failure::BadRequest(_) => "BAD_REQUEST"@,
            Failure::Unauthorized(_) => "UNAUTHORIZED"@,
            Failure::InternalError(_) => "INTERNAL_ERROR"@,
            Failure::ValidationError(_) => "VALIDATION_ERROR"@,
        }
    }

    /// What the one-line description of the failure starts with.
    pub open spec fn label(self) -> Seq<char> {
        match self {
            Failure::DatabaseError(_) => "Database error: "@,
            Failure::NotFound(_) => "Not found: "@,
            Failure::BadRequest(_) => "Bad request: "@,
            Failure::Unauthorized(_) => "Unauthorized: "@,
            Failure::InternalError(_) => "Internal error: "@,
            Failure::ValidationError(_) => "Validation error: "@,
        }
    }

    /// The failure is an internal one whose text starts with `opening`.
    pub open spec fn is_internal(self, opening: Seq<char>) -> bool {
        self is InternalError && opening.is_prefix_of(self.message())
    }

    /// The one-line description of the failure: its label, then its text.
    pub open spec fn display(self) -> Seq<char> {
        self.label() + self.message()
    }
}

/// Every failure an endpoint can report. A failure of the user store carries
/// the store's own description of what went wrong.
#[derive(Debug, Clone, PartialEq, Eq)]
pub enum AppError {
    DatabaseError(String),
    NotFound(String),
    BadRequest(String),
    Unauthorized(String),
    InternalError(String),
    ValidationError(String),
}

pub type AppResult<T> = Result<T, AppError>;

impl View for AppError {
    type V = Failure;

    open spec fn view(&self) -> Failure {
        match self {
            AppError::DatabaseError(text) => Failure::DatabaseError(text@),
            AppError::NotFound(text) => Failure::NotFound(text@),
            AppError::BadRequest(text) => Failure::BadRequest(text@),
            AppError::Unauthorized(text) => Failure::Unauthorized(text@),
            AppError::InternalError(text) => Failure::InternalError(text@),
            AppError::ValidationError(text) => Failure::ValidationError(text@),
        }
    }
}

/// What a fallible step came to, as contracts see it.
pub open spec fn outcome<T: View>(result: AppResult<T>) -> Result<T::V, Failure> {
    match result {
        Ok(value) => Ok(value@),
        Err(error) => Err(error@),
    }
}

impl AppError {
    /// The HTTP status of the failure.
    pub fn status_code(&self) -> (status: u16)
        ensures
            status == self@.status(),
    {
        match self {
            AppError::DatabaseError(_) => 500,
            AppError::NotFound(_) => 404,
            AppError::BadRequest(_) => 400,
            AppError::Unauthorized(_) => 401,
            AppError::InternalError(_) => 500,
            AppError::ValidationError(_) => 422,
        }
    }

    /// The stable code of the failure.
    pub fn error_code(&self) -> (code: &'static str)
        ensures
            code@ == self@.code(),
    {
        match self {
            AppError::DatabaseError(_) => "DATABASE_ERROR",
            AppError::NotFound(_) => "NOT_FOUND",
            AppError::BadRequest(_) => "BAD_REQUEST",
            AppError::Unauthorized(_) => "UNAUTHORIZED",
            AppError::InternalError(_) => "INTERNAL_ERROR",
            AppError::ValidationError(_) => "VALIDATION_ERROR",
        }
    }

    /// The text the failure carries.
    pub fn message(&self) -> (text: &str)
        ensures
            text@ == self@.message(),
    {
        match self {
            AppError::DatabaseError(text) => text.as_str(),
            AppError::NotFound(text) => text.as_str(),
            AppError::BadRequest(text) => text.as_str(),
            AppError::Unauthorized(text) => text.as_str(),
            AppError::InternalError(text) => text.as_str(),
            AppError::ValidationError(text) => text.as_str(),
        }
    }

    /// The one-line description of the failure.
    pub fn to_string(&self) -> (line: String)
        ensures
            line@ == self@.display(),
    {
        let label = match self {
            AppError::DatabaseError(_) => "Database error: ",
            AppError::NotFound(_) => "Not found: ",
            AppError::BadRequest(_) => "Bad request: ",
            AppError::Unauthorized(_) => "Unauthorized: ",
            AppError::InternalError(_) => "Internal error: ",
            AppError::ValidationError(_) => "Validation error: ",
        };
        String::from_str(label).concat(self.message())
    }

    /// The response a client gets for the failure: the status of its
    /// variant, and a failure envelope with the variant's code and the text.
    pub fn into_response<T>(self) -> (response: Response<T>)
        ensures
            response.status == self@.status(),
            response.body.is_failure(self@.code(), self@.message()),
            response.body.well_formed(),
    {
        let status = self.status_code();
        let code = String::from_str(self.error_code());
        let text = String::from_str(self.message());
        Response { status, body: ApiResponse::failure(code, text) }
    }
}

} // verus!
