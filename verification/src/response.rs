//! The response envelope every service operation produces: a status code, a
//! machine-stable message, and a data payload. The core only builds the
//! triple; serializing it is the surrounding program's business.

use vstd::prelude::*;

use crate::lists::ListWithItems;
use crate::store::List;
use crate::users::UserInformation;

verus! {

/// The payload a response can carry.
pub enum ResponseData {
    /// No payload.
    Empty,
    /// A freshly issued bearer token.
    Token(String),
    /// The lists a user has access to.
    Lists(Vec<List>),
    /// One list with all of its items.
    FullList(ListWithItems),
    /// A user's public information.
    UserInfo(UserInformation),
}

/// A response containing a header message and a payload.
pub struct Response {
    pub message: String,
    pub data: ResponseData,
}

/// A response together with the status code to send it under.
pub struct ResponseWithStatus {
    pub status_code: u16,
    pub response: Response,
}

impl ResponseWithStatus {
    /// Creates a `ResponseWithStatus` with the given status code and
    /// message, and an empty payload.
    pub fn with(status_code: u16, message: &str) -> (r: ResponseWithStatus)
        ensures
            r.status_code == status_code,
            r.response.message@ == message@,
            r.response.data is Empty,
    {
        ResponseWithStatus {
            status_code,
            response: Response { message: message.to_owned(), data: ResponseData::Empty },
        }
    }
}

} // verus!
