use vstd::prelude::*;

use crate::http::Response;
use crate::json::{error_body, error_body_seq};

verus! {

/// The failure taxonomy: rejected input, a missing row, a failure of the
/// backing store, and a failure to come up at all. Storage and startup
/// failures wrap the lower layer's message without inspecting it.
#[derive(Debug)]
pub enum AppError {
    /// The requested user does not exist.
    NotFound,
    /// The request payload was rejected before any storage call.
    Validation(String),
    /// The backing store failed; the message is the driver's, wrapped whole.
    Storage(String),
    /// The listener or the store could not be reached at boot. Fatal: the
    /// process exits instead of serving, so this kind is never classified
    /// into a response.
    Startup(String),
}

/// The message of the missing-row response.
pub open spec fn not_found_msg() -> Seq<char> {
    seq!['N', 'o', 't', ' ', 'f', 'o', 'u', 'n', 'd']
}

/// The message of the rejected-name response.
pub open spec fn empty_name_msg() -> Seq<char> {
    seq!['N', 'a', 'm', 'e', ' ', 'm', 'u', 's', 't', ' ', 'n', 'o', 't', ' ', 'b', 'e', ' ', 'e',
        'm', 'p', 't', 'y']
}

/// The message of the unmatched-route response.
pub open spec fn route_not_found_msg() -> Seq<char> {
    seq!['R', 'o', 'u', 't', 'e', ' ', 'n', 'o', 't', ' ', 'f', 'o', 'u', 'n', 'd']
}

impl AppError {
    /// The HTTP status bound to each kind: 404 for a missing row, 400 for
    /// rejected input, 500 for everything the store failed at.
    pub open spec fn status_of(&self) -> int {
        match self {
            AppError::NotFound => 404,
            AppError::Validation(_) => 400,
            AppError::Storage(_) => 500,
            AppError::Startup(_) => 500,
        }
    }

    /// The message carried into the response body.
    pub open spec fn message_of(&self) -> Seq<char> {
        match self {
            AppError::NotFound => not_found_msg(),
            AppError::Validation(m) => m@,
            AppError::Storage(m) => m@,
            AppError::Startup(m) => m@,
        }
    }

    /// The single place where an internal outcome becomes a wire response:
    /// the kind's status, and a JSON object with one `error` field. Startup
    /// failures end the process before any request is served and so never
    /// reach this mapping.
    pub fn into_response(self) -> (r: Response)
        requires
            !(self is Startup),
        ensures
            r.status as int == self.status_of(),
            r.body@ == error_body_seq(self.message_of()),
    {
        let status: u16 = match &self {
            AppError::NotFound => 404,
            AppError::Validation(_) => 400,
            _ => 500,
        };
        let msg: String = match self {
            AppError::NotFound => {
                proof {
                    reveal_strlit("Not found");
                    assert(("Not found")@ =~= not_found_msg());
                }
                String::from_str("Not found")
            },
            AppError::Validation(m) => m,
            AppError::Storage(m) => m,
            AppError::Startup(m) => m,
        };
        let body = error_body(msg.as_str());
        Response { status, body }
    }
}

} // verus!
