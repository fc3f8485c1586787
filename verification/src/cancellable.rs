//! The cancellation token handed to overridable operations.  The token is
//! advisory: the bridge passes it through unmodified, and the operation body
//! decides whether to honour it.

use vstd::prelude::*;

verus! {

/// An opaque handle representing a request to abort an in-flight operation.
/// Overrides receive it by borrowed reference for the duration of the call.
pub struct Cancellable {
    pub cancelled: bool,
}

impl View for Cancellable {
    type V = bool;

    open spec fn view(&self) -> bool {
        self.cancelled
    }
}

/// Whether an optional cancellation token carries a cancellation request.
/// An absent token never cancels anything.
pub open spec fn cancel_requested(c: Option<&Cancellable>) -> bool {
    c matches Some(t) && t@
}

impl Cancellable {
    /// A fresh token with no cancellation requested.
    pub fn new() -> (c: Cancellable)
        ensures
            !c@,
    {
        Cancellable { cancelled: false }
    }

    /// Requests cancellation of the operation the token was handed to.
    pub fn cancel(&mut self)
        ensures
            final(self)@,
    {
        self.cancelled = true;
    }

    /// Whether cancellation has been requested on this token.
    pub fn is_cancelled(&self) -> (b: bool)
        ensures
            b == self@,
    {
        self.cancelled
    }
}

} // verus!
