//! The error value that crosses the dispatch boundary: a heap-allocated
//! object carrying a domain, a code and a message.  Ownership of an error
//! transfers fully to the receiver at every boundary crossing.

use vstd::prelude::*;

verus! {

/// The error domain.  Every operation modelled here reports errors in the
/// input/output domain.
#[derive(Clone, Copy, PartialEq, Eq, Structural, Debug)]
pub enum ErrorDomain {
    Io,
}

/// The error code within the input/output domain.
#[derive(Clone, Copy, PartialEq, Eq, Structural, Debug)]
pub enum IoErrorCode {
    /// Generic failure.
    Failed,
    /// The operation is not supported by this implementation.
    NotSupported,
    /// The operation was cancelled through a cancellation token.
    Cancelled,
    /// The object the operation was invoked on has already been closed.
    Closed,
    /// A display name or path argument was not a valid filename.
    InvalidFilename,
}

/// The mathematical content of an error value.
pub struct ErrorView {
    pub domain: ErrorDomain,
    pub code: IoErrorCode,
    pub message: Seq<char>,
}

/// An error object: a (domain, code, message) triple.
#[derive(Debug)]
pub struct Error {
    pub domain: ErrorDomain,
    pub code: IoErrorCode,
    pub message: String,
}

impl View for Error {
    type V = ErrorView;

    open spec fn view(&self) -> ErrorView {
        ErrorView { domain: self.domain, code: self.code, message: self.message@ }
    }
}

/// The error raised when a cancellation token was triggered.
pub open spec fn cancelled_error() -> ErrorView {
    ErrorView { domain: ErrorDomain::Io, code: IoErrorCode::Cancelled, message: "operation was cancelled"@ }
}

/// The error raised when an operation runs on a closed object.
pub open spec fn closed_error() -> ErrorView {
    ErrorView { domain: ErrorDomain::Io, code: IoErrorCode::Closed, message: "object is closed"@ }
}

/// The error raised when an argument is not a valid filename.
pub open spec fn invalid_filename_error() -> ErrorView {
    ErrorView { domain: ErrorDomain::Io, code: IoErrorCode::InvalidFilename, message: "invalid filename"@ }
}

/// The error raised by an override for which the operation is meaningless.
pub open spec fn not_supported_error() -> ErrorView {
    ErrorView { domain: ErrorDomain::Io, code: IoErrorCode::NotSupported, message: "operation not supported"@ }
}

impl Error {
    /// Builds an error from its three parts, taking ownership of the message.
    pub fn new(domain: ErrorDomain, code: IoErrorCode, message: String) -> (e: Error)
        ensures
            e@ == (ErrorView { domain, code, message: message@ }),
    {
        Error { domain, code, message }
    }

    /// The error reported when a cancellation token was triggered.
    pub fn new_cancelled() -> (e: Error)
        ensures
            e@ == cancelled_error(),
    {
        Error {
            domain: ErrorDomain::Io,
            code: IoErrorCode::Cancelled,
            message: String::from_str("operation was cancelled"),
        }
    }

    /// The error reported when an operation runs on a closed object.
    pub fn new_closed() -> (e: Error)
        ensures
            e@ == closed_error(),
    {
        Error {
            domain: ErrorDomain::Io,
            code: IoErrorCode::Closed,
            message: String::from_str("object is closed"),
        }
    }

    /// The error reported when an argument is not a valid filename.
    pub fn new_invalid_filename() -> (e: Error)
        ensures
            e@ == invalid_filename_error(),
    {
        Error {
            domain: ErrorDomain::Io,
            code: IoErrorCode::InvalidFilename,
            message: String::from_str("invalid filename"),
        }
    }

    /// The error reported by an override that does not support the operation.
    pub fn new_not_supported() -> (e: Error)
        ensures
            e@ == not_supported_error(),
    {
        Error {
            domain: ErrorDomain::Io,
            code: IoErrorCode::NotSupported,
            message: String::from_str("operation not supported"),
        }
    }

    /// The domain of the error.
    pub fn domain(&self) -> (d: ErrorDomain)
        ensures
            d == self@.domain,
    {
        self.domain
    }

    /// The code of the error.
    pub fn code(&self) -> (c: IoErrorCode)
        ensures
            c == self@.code,
    {
        self.code
    }

    /// The message of the error.
    pub fn message(&self) -> (m: &str)
        ensures
            m@ == self@.message,
    {
        self.message.as_str()
    }
}

} // verus!
