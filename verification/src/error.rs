//! What can go wrong while a feed is fetched.

use vstd::prelude::*;

verus! {

/// Represents anything that could go wrong when dealing with web feeds. Each
/// variant holds the text of its cause.
#[derive(Debug, PartialEq, Eq)]
pub enum Error {
    /// The transport failed.
    Reqwest(String),
    /// A header could not be read as text.
    HeaderString(String),
    /// Reading or writing failed.
    Io(String),
    /// Anything else.
    Generic(String),
}

/// An [`Error`] as mathematical values.
pub enum ErrorView {
    Reqwest(Seq<char>),
    HeaderString(Seq<char>),
    Io(Seq<char>),
    Generic(Seq<char>),
}

impl ErrorView {
    /// The text shown for the error: that of its cause.
    pub open spec fn message(self) -> Seq<char> {
        match self {
            ErrorView::Reqwest(e) => e,
            ErrorView::HeaderString(e) => e,
            ErrorView::Io(e) => e,
            ErrorView::Generic(e) => e,
        }
    }
}

impl View for Error {
    type V = ErrorView;

    open spec fn view(&self) -> ErrorView {
        match self {
            Error::Reqwest(e) => ErrorView::Reqwest(e@),
            Error::HeaderString(e) => ErrorView::HeaderString(e@),
            Error::Io(e) => ErrorView::Io(e@),
            Error::Generic(e) => ErrorView::Generic(e@),
        }
    }
}

impl Error {
    /// An error of no particular kind with the text of `cause`.
    pub fn generic(cause: &str) -> (error: Error)
        ensures
            error@ == ErrorView::Generic(cause@),
    {
        Error::Generic(String::from_str(cause))
    }

    /// The text shown for the error.
    pub fn to_string(&self) -> (text: String)
        ensures
            text@ == self@.message(),
    {
        match self {
            Error::Reqwest(e) => e.clone(),
            Error::HeaderString(e) => e.clone(),
            Error::Io(e) => e.clone(),
            Error::Generic(e) => e.clone(),
        }
    }
}

} // verus!
