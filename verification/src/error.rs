//! The error answered to an HTTP request: a status code and a message.

use vstd::prelude::*;

verus! {

/// `400 Bad Request`.
pub const BAD_REQUEST: u16 = 400;
/// `409 Conflict`.
pub const CONFLICT: u16 = 409;
/// `422 Unprocessable Entity`.
pub const UNPROCESSABLE_ENTITY: u16 = 422;
/// `500 Internal Server Error`.
pub const INTERNAL_SERVER_ERROR: u16 = 500;

/// An error answered to a request, with its status code and message.
pub struct HttpResponseError {
    pub status: u16,
    pub msg: String,
}

/// An error with the given status and message.
pub fn http_error(status: u16, msg: &str) -> (res: HttpResponseError)
    ensures
        res.status == status,
        res.msg@ == msg@,
{
    HttpResponseError { status, msg: msg.to_owned() }
}

} // verus!
