//! The one way in which a conversion can fail.

use vstd::prelude::*;

verus! {

/// An argument could not be used: the text does not fit the pattern, the
/// pattern is malformed, or the converted date and time falls outside the
/// supported years. `message` describes what went wrong.
#[derive(Clone, Debug, PartialEq, Eq)]
pub struct InvalidArgumentError {
    pub message: String,
}

impl View for InvalidArgumentError {
    type V = Seq<char>;

    open spec fn view(&self) -> Seq<char> {
        self.message@
    }
}

impl InvalidArgumentError {
    /// An error that carries `message`.
    pub fn new(message: &str) -> (error: InvalidArgumentError)
        ensures
            error@ == message@,
    {
        InvalidArgumentError { message: message.to_owned() }
    }

    /// The description of what went wrong.
    pub fn message(&self) -> (message: &str)
        ensures
            message@ == self@,
    {
        self.message.as_str()
    }
}

} // verus!
