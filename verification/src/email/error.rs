//! What can go wrong while an email is sent.

use vstd::prelude::*;

verus! {

/// Represents all things that could go wrong while trying to send an email.
/// Each variant holds the text of its cause.
#[derive(Debug, PartialEq, Eq)]
pub enum EmailError {
    Config(String),
    Request(String),
    Io(String),
    Other(String),
}

/// An [`EmailError`] as mathematical values.
pub enum EmailErrorView {
    Config(Seq<char>),
    Request(Seq<char>),
    Io(Seq<char>),
    Other(Seq<char>),
}

impl EmailErrorView {
    /// The text shown for the error: that of its cause.
    pub open spec fn message(self) -> Seq<char> {
        match self {
            EmailErrorView::Config(e) => e,
            EmailErrorView::Request(e) => e,
            EmailErrorView::Io(e) => e,
            EmailErrorView::Other(e) => e,
        }
    }
}

impl View for EmailError {
    type V = EmailErrorView;

    open spec fn view(&self) -> EmailErrorView {
        match self {
            EmailError::Config(e) => EmailErrorView::Config(e@),
            EmailError::Request(e) => EmailErrorView::Request(e@),
            EmailError::Io(e) => EmailErrorView::Io(e@),
            EmailError::Other(e) => EmailErrorView::Other(e@),
        }
    }
}

impl EmailError {
    /// The text shown for the error.
    pub fn to_string(&self) -> (text: String)
        ensures
            text@ == self@.message(),
    {
        match self {
            EmailError::Config(e) => e.clone(),
            EmailError::Request(e) => e.clone(),
            EmailError::Io(e) => e.clone(),
            EmailError::Other(e) => e.clone(),
        }
    }
}

} // verus!
