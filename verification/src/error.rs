//! The single error kind used throughout this layer.

use vstd::prelude::*;

verus! {

/// A user-facing validation failure carrying a descriptive message.
///
/// Every failure in this layer is immediately terminal for the current
/// command invocation: missing required fields, unrecognized format tokens
/// and mis-sized encoded values are all collapsed into this one kind.
#[derive(Debug)]
pub enum Error {
    /// Invalid or missing command-line argument, with a human-readable message.
    ArgumentError(String),
}

impl Error {
    /// The human-readable message carried by this error.
    pub fn message(&self) -> (r: &String)
        ensures
            r@ == self.message_view(),
    {
        match self {
            Error::ArgumentError(m) => m,
        }
    }

    /// The message as a sequence of characters.
    pub open spec fn message_view(&self) -> Seq<char> {
        match self {
            Error::ArgumentError(m) => m@,
        }
    }
}

} // verus!
