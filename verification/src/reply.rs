//! The JSON envelope that every handler answers with, and its HTTP status.

use crate::text::owned;
use vstd::prelude::*;

verus! {

/// 200 OK
pub const HTTP_OK: u16 = 200;

/// 201 Created
pub const HTTP_CREATED: u16 = 201;

/// 400 Bad Request
pub const HTTP_BAD_REQUEST: u16 = 400;

/// 401 Unauthorized
pub const HTTP_UNAUTHORIZED: u16 = 401;

/// 404 Not Found
pub const HTTP_NOT_FOUND: u16 = 404;

/// 500 Internal Server Error
pub const HTTP_INTERNAL_ERROR: u16 = 500;

/// The envelope: a status word, a message and the payload, if there is one.
#[derive(Debug)]
pub struct ApiResponse<T> {
    pub status: String,
    pub message: String,
    pub data: Option<T>,
}

/// An answer to a request: the HTTP status code and the envelope.
#[derive(Debug)]
pub struct Reply<T> {
    pub code: u16,
    pub body: ApiResponse<T>,
}

impl<T> Reply<T> {
    /// An error answer: status word `error`, the message, no payload.
    pub open spec fn is_error(self, code: u16, message: Seq<char>) -> bool {
        &&& self.code == code
        &&& self.body.status@ == "error"@
        &&& self.body.message@ == message
        &&& self.body.data is None
    }

    /// A success answer: status word `success`, the message, and a payload
    /// where `with_data` holds.
    pub open spec fn is_success(self, code: u16, message: Seq<char>, with_data: bool) -> bool {
        &&& self.code == code
        &&& self.body.status@ == "success"@
        &&& self.body.message@ == message
        &&& self.body.data is Some == with_data
    }

    /// An error answer.
    pub fn error(code: u16, message: &str) -> (r: Reply<T>)
        ensures
            r.is_error(code, message@),
    {
        Reply { code, body: ApiResponse { status: owned("error"), message: owned(message), data: None } }
    }

    /// A success answer.
    pub fn success(code: u16, message: &str, data: Option<T>) -> (r: Reply<T>)
        ensures
            r.is_success(code, message@, data is Some),
            r.body.data == data,
    {
        Reply { code, body: ApiResponse { status: owned("success"), message: owned(message), data } }
    }
}

/// Whether an HTTP status code is in the 2xx class.
pub open spec fn success_status(status: u16) -> bool {
    200 <= status < 300
}

/// Whether an HTTP status code is in the 2xx class.
pub fn is_success_status(status: u16) -> (r: bool)
    ensures
        r == success_status(status),
{
    200 <= status && status < 300
}

} // verus!
