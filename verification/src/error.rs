//! The error every fallible operation of the library reports: a message
//! meant for the user.

use vstd::prelude::*;

verus! {

/// An error carrying the message shown to the user.
#[derive(Debug)]
pub struct AppError(pub String);

impl AppError {
    pub fn new(message: String) -> (r: AppError)
        ensures
            r.0@ == message@,
    {
        AppError(message)
    }

    /// The message text.
    pub fn message(&self) -> (r: &str)
        ensures
            r@ == self.0@,
    {
        self.0.as_str()
    }
}

} // verus!
