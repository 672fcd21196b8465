use vstd::prelude::*;

verus! {

/// A classified failure of a repository operation: a message for humans and
/// the HTTP status that the operation suggests for it.
#[derive(Debug, PartialEq, Eq)]
pub struct Error {
    pub message: String,
    pub status: u16,
}

/// The mathematical value of an [`Error`].
pub struct ErrorView {
    pub message: Seq<char>,
    pub status: u16,
}

impl View for Error {
    type V = ErrorView;

    open spec fn view(&self) -> ErrorView {
        ErrorView { message: self.message@, status: self.status }
    }
}

impl Error {
    pub fn new(message: String, status: u16) -> (e: Self)
        ensures
            e.message == message,
            e.status == status,
    {
        Self { message, status }
    }

    /// The error with the given text and status.
    pub(crate) fn of(message: &str, status: u16) -> (e: Self)
        ensures
            e@ == (ErrorView { message: message@, status }),
    {
        Error::new(message.to_owned(), status)
    }
}

impl Clone for Error {
    fn clone(&self) -> (e: Self)
        ensures
            e == *self,
    {
        Error { message: self.message.clone(), status: self.status }
    }
}

} // verus!
