//! Errors reported to a remote caller, and the reply that carries each.

use vstd::prelude::*;

verus! {

/// A failure with a message for the remote caller.
#[derive(Debug)]
pub struct CustomError(pub String);

/// The body of an error reply.
#[derive(Debug)]
pub struct ErrorResponse {
    pub error: String,
}

/// Why a request was turned down.
pub enum Rejection {
    /// No route matches the request.
    NotFound,
    /// A handler failed with a message of its own.
    Custom(CustomError),
    /// Anything else.
    Unhandled,
}

/// Status code of the reply to a request that no route matches.
pub const STATUS_NOT_FOUND: u16 = 404;

/// Status code of the reply to a request whose handler failed.
pub const STATUS_BAD_REQUEST: u16 = 400;

/// Status code of the reply to any other failure.
pub const STATUS_INTERNAL_SERVER_ERROR: u16 = 500;

/// The status code that answers `rejection`.
pub open spec fn rejection_status(rejection: Rejection) -> u16 {
    match rejection {
        Rejection::NotFound => STATUS_NOT_FOUND,
        Rejection::Custom(_) => STATUS_BAD_REQUEST,
        Rejection::Unhandled => STATUS_INTERNAL_SERVER_ERROR,
    }
}

/// The message that answers `rejection`.
pub open spec fn rejection_message(rejection: Rejection) -> Seq<char> {
    match rejection {
        Rejection::NotFound => "Not Found"@,
        Rejection::Custom(e) => e.0@,
        Rejection::Unhandled => "Internal Server Error"@,
    }
}

/// The reply to a rejected request: its status code and its body. A handler's
/// own failure is a bad request and carries the handler's message.
pub fn handle_rejection(rejection: &Rejection) -> (r: (u16, ErrorResponse))
    ensures
        r.0 == rejection_status(*rejection),
        r.1.error@ == rejection_message(*rejection),
{
    match rejection {
        Rejection::NotFound => (STATUS_NOT_FOUND, ErrorResponse { error: "Not Found".to_owned() }),
        Rejection::Custom(e) => (STATUS_BAD_REQUEST, ErrorResponse { error: e.0.clone() }),
        Rejection::Unhandled => (
            STATUS_INTERNAL_SERVER_ERROR,
            ErrorResponse { error: "Internal Server Error".to_owned() },
        ),
    }
}

/// What became of a signer's registration with the hub: it stands where the
/// hub accepted it, and fails with the hub's own words where it did not.
pub fn registration_outcome(accepted: bool, body: String) -> (r: Result<(), CustomError>)
    ensures
        match r {
            Ok(()) => accepted,
            Err(e) => !accepted && e.0 == body,
        },
{
    if accepted {
        Ok(())
    } else {
        Err(CustomError(body))
    }
}

} // verus!
