//! The uniform error that every backend's failures are turned into.
use vstd::prelude::*;

verus! {

/// An engine failure, carrying a description of what went wrong.
#[derive(Debug)]
pub struct Errors {
    details: String,
}

impl Errors {
    /// An error with the given description.
    pub fn new(msg: &str) -> (r: Errors)
        ensures
            r.message() == msg@,
    {
        Errors { details: String::from_str(msg) }
    }

    /// The description of the error.
    pub closed spec fn message(&self) -> Seq<char> {
        self.details@
    }

    /// The description of the error, as text.
    pub fn details(&self) -> (r: &str)
        ensures
            r@ == self.message(),
    {
        self.details.as_str()
    }
}

} // verus!
