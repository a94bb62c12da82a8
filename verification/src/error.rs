//! The library's error: a message, as the failing step described it.

use vstd::prelude::*;

verus! {

/// An error carrying the message of the step that failed.
#[derive(Debug)]
pub struct Error {
    message: String,
}

impl Error {
    /// The message this error carries.
    pub closed spec fn message(&self) -> Seq<char> {
        self.message@
    }

    /// An error with the given message.
    pub fn new(message: String) -> (e: Error)
        ensures
            e.message() == message@,
    {
        Error { message }
    }

    /// The message, as the error is displayed.
    pub fn to_string(&self) -> (s: String)
        ensures
            s@ == self.message(),
    {
        self.message.clone()
    }
}

} // verus!
