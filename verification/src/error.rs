use vstd::prelude::*;

verus! {

/// An error that can occur when working with this crate.
///
/// Exactly one kind of failure originates inside this crate: a caller-supplied
/// value could not be converted into a wire value. The error carries the
/// message reported by whatever conversion rejected the value.
#[derive(Debug, PartialEq, Eq)]
pub struct Error {
    message: String,
}

impl Clone for Error {
    fn clone(&self) -> (r: Self)
        ensures
            r@ == self@,
    {
        Error { message: self.message.clone() }
    }
}

impl View for Error {
    type V = Seq<char>;

    closed spec fn view(&self) -> Seq<char> {
        self.message@
    }
}

impl Error {
    /// Creates a new error from a source error message.
    pub fn new(message: &str) -> (r: Self)
        ensures
            r@ == message@,
    {
        Error { message: message.to_owned() }
    }

    /// The message describing the failure.
    pub fn message(&self) -> (r: &str)
        ensures
            r@ == self@,
    {
        self.message.as_str()
    }
}

} // verus!
