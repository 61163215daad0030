pub mod file_handler;
pub mod transfer_handler;

use vstd::prelude::*;
use crate::dto::response::ApiResponse;

verus! {

/// The reply of a request handler, which the HTTP layer writes out.
#[derive(Debug)]
pub enum Reply<T> {
    /// Status 200 with `T` as JSON body.
    Json(T),
    /// The given status with an `ApiResponse` body.
    Status(u16, ApiResponse<()>),
    /// Status 204 with no body.
    NoContent,
}

/// `r` is a reply with status `code` whose body is a failure carrying `text`.
pub open spec fn is_status_reply<T>(r: Reply<T>, code: u16, text: Seq<char>) -> bool {
    &&& r matches Reply::Status(c, body)
    &&& c == code
    &&& !body.success
    &&& body.data is None
    &&& body.message == Some(body.message->0)
    &&& body.message->0@ == text
}

/// A reply with status `code` and a failure body carrying `message`.
pub fn status_reply<T>(code: u16, message: String) -> (r: Reply<T>)
    ensures
        is_status_reply(r, code, message@),
{
    Reply::Status(code, ApiResponse::error(message))
}

} // verus!
