//! The body and status that a failure is answered with.

use vstd::prelude::*;

verus! {

/// Status of an answer to a request that found nothing.
pub const NOT_FOUND: u16 = 404;

/// Status of an answer to a caller who did not prove who they are.
pub const UNAUTHORIZED: u16 = 401;

/// Status of an answer to a caller whose proof of identity is refused.
pub const FORBIDDEN: u16 = 403;

/// Status of an answer to a request that collides with stored data.
pub const CONFLICT: u16 = 409;

/// Status of an answer to a request whose body breaks a field rule.
pub const UNPROCESSABLE_ENTITY: u16 = 422;

/// Status of an answer to a failure that is the server's own.
pub const INTERNAL_SERVER_ERROR: u16 = 500;

/// The body of every failure answer: one message.
#[derive(Debug, Clone, PartialEq, Eq)]
pub struct ErrorResponse {
    pub message: String,
}

/// A failure as the client sees it: a status code and a body.
#[derive(Debug, Clone, PartialEq, Eq)]
pub struct ErrorReply {
    pub status: u16,
    pub body: ErrorResponse,
}

impl ErrorReply {
    /// Builds the answer with the given status and message.
    pub fn new(status: u16, message: &str) -> (r: ErrorReply)
        ensures
            r.status == status,
            r.body.message@ == message@,
    {
        ErrorReply { status, body: ErrorResponse { message: message.to_owned() } }
    }
}

} // verus!
