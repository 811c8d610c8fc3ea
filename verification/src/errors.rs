//! The typed failures that the orchestrator hands to its caller.

use vstd::prelude::*;

verus! {

/// Why an operation did not produce a success payload.
#[derive(Clone, Copy, Debug, PartialEq, Eq, Structural)]
pub enum ErrorKind {
    /// The gateway could not be reached, or its answer was not JSON.
    Transport,
    /// A relational operation failed.
    Store,
    /// The register that a device points to does not exist.
    NotFound,
    /// The device is not registered, or did not identify itself.
    Forbidden,
    /// A status or return was asked for while no charge is outstanding.
    NoActiveTransaction,
    /// The request path names neither a status check nor a return.
    InvalidRoute,
    /// The gateway answered an open-session call without a session token.
    OpenFailed,
}

impl ErrorKind {
    /// The HTTP status under which a failure of this kind is reported.
    pub open spec fn status_code(self) -> u16 {
        match self {
            ErrorKind::Transport => 400,
            ErrorKind::Store => 500,
            ErrorKind::NotFound => 409,
            ErrorKind::Forbidden => 403,
            ErrorKind::NoActiveTransaction => 400,
            ErrorKind::InvalidRoute => 400,
            ErrorKind::OpenFailed => 500,
        }
    }

    /// Whether the failure is the client's: a 4xx status.
    pub open spec fn is_client_error(self) -> bool {
        400 <= self.status_code() < 500
    }

    /// Computes [`ErrorKind::status_code`].
    pub fn status(&self) -> (r: u16)
        ensures
            r == self.status_code(),
    {
        match self {
            ErrorKind::Transport => 400,
            ErrorKind::Store => 500,
            ErrorKind::NotFound => 409,
            ErrorKind::Forbidden => 403,
            ErrorKind::NoActiveTransaction => 400,
            ErrorKind::InvalidRoute => 400,
            ErrorKind::OpenFailed => 500,
        }
    }
}

/// A failure as the routing layer reports it: a status and a message.
#[derive(Clone, Debug)]
pub struct ApiError {
    pub kind: ErrorKind,
    pub status: u16,
    pub error: String,
}

/// An [`ApiError`] with its message as a sequence of characters.
#[verifier::ext_equal]
pub struct ApiErrorView {
    pub kind: ErrorKind,
    pub status: u16,
    pub error: Seq<char>,
}

impl View for ApiError {
    type V = ApiErrorView;

    open spec fn view(&self) -> ApiErrorView {
        ApiErrorView { kind: self.kind, status: self.status, error: self.error@ }
    }
}

/// The failure of a kind with a message, under that kind's status.
pub open spec fn error_of(kind: ErrorKind, message: Seq<char>) -> ApiErrorView {
    ApiErrorView { kind, status: kind.status_code(), error: message }
}

/// Builds the failure that [`error_of`] describes.
pub fn json_error(kind: ErrorKind, err: &str) -> (r: ApiError)
    ensures
        r@ == error_of(kind, err@),
{
    ApiError { kind, status: kind.status(), error: err.to_owned() }
}

} // verus!
