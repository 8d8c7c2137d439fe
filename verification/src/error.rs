//! The errors of the server.

use vstd::prelude::*;

verus! {

/// What kind of error it is.
#[derive(Debug, Clone, Copy, PartialEq, Eq, Structural)]
pub enum ErrorClass {
    /// The configuration is not usable.
    Config,
    /// TLS could not be set up.
    Tls,
    /// A connection could not be made.
    Transport,
    /// An operation could not be carried out.
    Execution,
}

/// An error of the server.
#[derive(Debug, Clone)]
pub struct Error {
    /// What kind of error it is.
    pub class: ErrorClass,
    /// What is said of it.
    pub message: String,
}

/// What an error says.
#[verifier::ext_equal]
pub struct ErrorText {
    /// What kind of error it is.
    pub class: ErrorClass,
    /// What is said of it.
    pub message: Seq<char>,
}

impl DeepView for Error {
    type V = ErrorText;

    open spec fn deep_view(&self) -> ErrorText {
        ErrorText { class: self.class, message: self.message@ }
    }
}

impl Error {
    /// An error of this kind.
    pub fn new(class: ErrorClass, message: String) -> (error: Self)
        ensures
            error.class == class,
            error.message == message,
    {
        Error { class, message }
    }
}

}
