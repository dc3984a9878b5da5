//! The uniform envelope API handlers answer with, and the error taxonomy
//! they map failures into.
use vstd::prelude::*;

verus! {

use vstd::string::*;

/// The envelope around every API payload: a status tag, a message, and the
/// data when there is any.
pub struct ApiResponse<T> {
    pub status: String,
    pub message: String,
    pub data: Option<T>,
}

impl ApiResponse<()> {
    /// A success envelope with no payload.
    pub fn success_null() -> (r: Self)
        ensures
            r.status@ == "success"@,
            r.message@ == "Operation successful"@,
            r.data is None,
    {
        ApiResponse {
            status: String::from_str("success"),
            message: String::from_str("Operation successful"),
            data: None,
        }
    }
}

impl<T> ApiResponse<T> {
    /// A success envelope around `data`.
    pub fn success(data: T) -> (r: Self)
        ensures
            r.status@ == "success"@,
            r.message@ == "Operation successful"@,
            r.data == Some(data),
    {
        ApiResponse {
            status: String::from_str("success"),
            message: String::from_str("Operation successful"),
            data: Some(data),
        }
    }

    /// An error envelope carrying `message` and no payload.
    pub fn error(message: &str) -> (r: Self)
        ensures
            r.status@ == "error"@,
            r.message@ == message@,
            r.data is None,
    {
        ApiResponse {
            status: String::from_str("error"),
            message: String::from_str(message),
            data: None,
        }
    }
}

/// The failures an API handler can answer with.
#[derive(Debug)]
pub enum ApiError {
    Unauthorized,
    Forbidden,
    NotFound(String),
    BadRequest(String),
    Internal(String),
}

impl ApiError {
    /// The HTTP status code this error is answered with.
    pub open spec fn spec_status_code(self) -> u16 {
        match self {
            ApiError::Unauthorized => 401,
            ApiError::Forbidden => 403,
            ApiError::NotFound(_) => 404,
            ApiError::BadRequest(_) => 400,
            ApiError::Internal(_) => 500,
        }
    }

    /// The message body this error is answered with.
    pub open spec fn spec_status_message(self) -> Seq<char> {
        match self {
            ApiError::Unauthorized => "Unauthorized"@,
            ApiError::Forbidden => "Forbidden"@,
            ApiError::NotFound(m) => m@,
            ApiError::BadRequest(m) => m@,
            ApiError::Internal(m) => m@,
        }
    }

    /// The status code and message a response to this error carries.
    pub fn status_and_message(&self) -> (r: (u16, String))
        ensures
            r.0 == self.spec_status_code(),
            r.1@ == self.spec_status_message(),
    {
        match self {
            ApiError::Unauthorized => (401, String::from_str("Unauthorized")),
            ApiError::Forbidden => (403, String::from_str("Forbidden")),
            ApiError::NotFound(m) => (404, String::from_str(m.as_str())),
            ApiError::BadRequest(m) => (400, String::from_str(m.as_str())),
            ApiError::Internal(m) => (500, String::from_str(m.as_str())),
        }
    }
}

} // verus!
