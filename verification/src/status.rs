//! The outcome of a request that could not be served.

use vstd::prelude::*;

verus! {

/// The gRPC status code of a failure.
#[derive(Debug, Clone, Copy, PartialEq, Eq, Structural)]
pub enum Code {
    Cancelled,
    Unknown,
    InvalidArgument,
    DeadlineExceeded,
    NotFound,
    AlreadyExists,
    PermissionDenied,
    ResourceExhausted,
    FailedPrecondition,
    Aborted,
    OutOfRange,
    Unimplemented,
    Internal,
    Unavailable,
    DataLoss,
    Unauthenticated,
}

/// A gRPC status: a code and a message.
#[derive(Debug, Clone)]
pub struct Status {
    /// What kind of failure it is.
    pub code: Code,
    /// What is said of it.
    pub message: String,
}

/// What a status says.
#[verifier::ext_equal]
pub struct StatusText {
    /// What kind of failure it is.
    pub code: Code,
    /// What is said of it.
    pub message: Seq<char>,
}

impl DeepView for Status {
    type V = StatusText;

    open spec fn deep_view(&self) -> StatusText {
        StatusText { code: self.code, message: self.message@ }
    }
}

/// An internal failure.
pub open spec fn internal(message: Seq<char>) -> StatusText {
    StatusText { code: Code::Internal, message }
}

impl Status {
    /// A status with this code and message.
    pub fn new(code: Code, message: String) -> (status: Self)
        ensures
            status.code == code,
            status.message == message,
            status.deep_view() == (StatusText { code, message: message@ }),
    {
        Status { code, message }
    }

    /// An internal failure.
    pub fn internal(message: String) -> (status: Self)
        ensures
            status.deep_view() == internal(message@),
    {
        Status { code: Code::Internal, message }
    }
}

}
