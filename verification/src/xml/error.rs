//! What can go wrong while a feed is turned into a blog.

use vstd::prelude::*;

verus! {

/// Represents possible issues that may arise when trying to parse web feeds.
/// If this occurs then a web feed is considered invalid.
#[derive(Debug, Eq, PartialEq, Hash)]
pub enum ParserError {
    /// Generic parsing error.
    Parse(String),
    /// Date format error.
    Date(DateError),
}

/// Represents different types of Date errors.
#[derive(Debug, Eq, PartialEq, Hash)]
pub enum DateError {
    Generic(String),
    TimeZoneError(String),
    Empty,
}

/// A [`DateError`] as mathematical values.
pub enum DateErrorView {
    Generic(Seq<char>),
    TimeZoneError(Seq<char>),
    Empty,
}

/// A [`ParserError`] as mathematical values.
pub enum ParserErrorView {
    Parse(Seq<char>),
    Date(DateErrorView),
}

impl DateErrorView {
    /// The text shown for the error.
    pub open spec fn message(self) -> Seq<char> {
        match self {
            DateErrorView::Generic(e) => "Date error: "@ + e,
            DateErrorView::TimeZoneError(e) => "Timezone error: "@ + e,
            DateErrorView::Empty => "Date was empty"@,
        }
    }
}

impl ParserErrorView {
    /// The text shown for the error.
    pub open spec fn message(self) -> Seq<char> {
        match self {
            ParserErrorView::Parse(e) => "Parse error: "@ + e,
            ParserErrorView::Date(e) => e.message(),
        }
    }
}

impl View for DateError {
    type V = DateErrorView;

    open spec fn view(&self) -> DateErrorView {
        match self {
            DateError::Generic(e) => DateErrorView::Generic(e@),
            DateError::TimeZoneError(e) => DateErrorView::TimeZoneError(e@),
            DateError::Empty => DateErrorView::Empty,
        }
    }
}

impl View for ParserError {
    type V = ParserErrorView;

    open spec fn view(&self) -> ParserErrorView {
        match self {
            ParserError::Parse(e) => ParserErrorView::Parse(e@),
            ParserError::Date(e) => ParserErrorView::Date(e@),
        }
    }
}

/// The outcome of a conversion, its value and its error as mathematical values.
pub open spec fn outcome<T: View>(result: Result<T, ParserError>) -> Result<T::V, ParserErrorView> {
    match result {
        Ok(value) => Ok(value@),
        Err(error) => Err(error@),
    }
}

impl DateError {
    /// The text shown for the error.
    pub fn to_string(&self) -> (text: String)
        ensures
            text@ == self@.message(),
    {
        match self {
            DateError::Generic(e) => String::from_str("Date error: ").concat(e.as_str()),
            DateError::TimeZoneError(e) => String::from_str("Timezone error: ").concat(e.as_str()),
            DateError::Empty => String::from_str("Date was empty"),
        }
    }
}

impl ParserError {
    /// Less verbose way of instantiating a [`DateError::Generic`].
    pub fn generic_date_error(msg: String) -> (error: Self)
        ensures
            error == ParserError::Date(DateError::Generic(msg)),
    {
        Self::Date(DateError::Generic(msg))
    }

    /// Less verbose way of instantiating a [`DateError::TimeZoneError`].
    pub fn timezone_date_error(msg: String) -> (error: Self)
        ensures
            error == ParserError::Date(DateError::TimeZoneError(msg)),
    {
        Self::Date(DateError::TimeZoneError(msg))
    }

    /// Less verbose way of instantiating a [`DateError::Empty`].
    pub fn empty_date_error() -> (error: Self)
        ensures
            error == ParserError::Date(DateError::Empty),
    {
        Self::Date(DateError::Empty)
    }

    /// A generic parsing error that carries the text of `msg`.
    pub fn parse_error(msg: &str) -> (error: Self)
        ensures
            error@ == ParserErrorView::Parse(msg@),
    {
        Self::Parse(String::from_str(msg))
    }

    /// The text shown for the error.
    pub fn to_string(&self) -> (text: String)
        ensures
            text@ == self@.message(),
    {
        match self {
            ParserError::Parse(e) => String::from_str("Parse error: ").concat(e.as_str()),
            ParserError::Date(e) => e.to_string(),
        }
    }
}

} // verus!
