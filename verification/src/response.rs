//! The envelope that every response body has, and the one place where the
//! result of an endpoint becomes a response.

use vstd::prelude::*;

use crate::error::AppResult;

verus! {

/// The one shape of every response body. A success carries the payload and
/// nothing else; a failure carries a code and a text and no payload.
#[derive(Debug, Clone, PartialEq, Eq)]
pub struct ApiResponse<T> {
    pub success: bool,
    pub data: Option<T>,
    pub error: Option<String>,
    pub message: Option<String>,
}

/// A response on its way to the wire: the HTTP status and the body.
#[derive(Debug, Clone, PartialEq, Eq)]
pub struct Response<T> {
    pub status: u16,
    pub body: ApiResponse<T>,
}

impl<T> ApiResponse<T> {
    /// The body is the success envelope of `data`.
    pub open spec fn is_success(&self, data: T) -> bool {
        &&& self.success
        &&& self.data == Some(data)
        &&& self.error is None
        &&& self.message is None
    }

    /// The body is the failure envelope with this code and text.
    pub open spec fn is_failure(&self, code: Seq<char>, text: Seq<char>) -> bool {
        &&& !self.success
        &&& self.data is None
        &&& self.error matches Some(c) && c@ == code
        &&& self.message matches Some(m) && m@ == text
    }

    /// Payload and failure report exclude each other, and one of them is there.
    pub open spec fn well_formed(&self) -> bool {
        if self.success {
            self.data is Some && self.error is None && self.message is None
        } else {
            self.data is None && self.error is Some && self.message is Some
        }
    }

    /// Wraps the payload of a successful request.
    pub fn success(data: T) -> (body: Self)
        ensures
            body.is_success(data),
            body.well_formed(),
    {
        ApiResponse { success: true, data: Some(data), error: None, message: None }
    }

    /// Wraps the code and the text of a failed request.
    pub fn failure(code: String, text: String) -> (body: Self)
        ensures
            body.is_failure(code@, text@),
            body.well_formed(),
    {
        ApiResponse { success: false, data: None, error: Some(code), message: Some(text) }
    }
}

/// The status of every successful response.
pub const STATUS_OK: u16 = 200;

/// Renders what an endpoint came to, the one way for every endpoint: a
/// payload under the success status, a failure under the status of its
/// variant with its code and its text.
pub fn respond<T>(result: AppResult<T>) -> (response: Response<T>)
    ensures
        response.body.well_formed(),
        match result {
            Ok(data) => response.status == STATUS_OK && response.body.is_success(data),
            Err(error) => response.status == error@.status() && response.body.is_failure(
                error@.code(),
                error@.message(),
            ),
        },
{
    match result {
        Ok(data) => Response { status: STATUS_OK, body: ApiResponse::success(data) },
        Err(error) => error.into_response(),
    }
}

} // verus!
