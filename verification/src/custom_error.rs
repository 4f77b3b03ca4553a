//! The error that a node reports: a message.

use vstd::prelude::*;

verus! {

/// An error with the message that describes it.
#[derive(Debug)]
pub struct CustomError {
    message: String,
}

impl View for CustomError {
    type V = Seq<char>;

    /// The message.
    closed spec fn view(&self) -> Seq<char> {
        self.message@
    }
}

impl CustomError {
    /// An error with the given message.
    pub fn new(msg: &str) -> (error: Self)
        ensures
            error@ == msg@,
    {
        CustomError { message: msg.to_owned() }
    }

    /// The message, as the error is displayed.
    pub fn to_string(&self) -> (text: String)
        ensures
            text@ == self@,
    {
        self.message.clone()
    }
}

} // verus!
