//! The decisions taken while a feed is fetched: which responses are read and
//! what is made of them. Sending the request and reading the response is the
//! caller's part.

use crate::error::{Error, ErrorView};
use crate::text::{before, same_text, text_before, trim, trimmed};
use vstd::prelude::*;

verus! {

/// The `Accept` header of every request.
pub const ACCEPT: &'static str =
    "application/xml, text/xml, application/rss+xml, application/atom+xml";

/// The `User-Agent` header of every request.
pub const USER_AGENT: &'static str = "Rss2Email";

/// The `Content-Type` header of a response, as the transport found it.
#[derive(Debug, Clone, PartialEq, Eq)]
pub enum ContentType {
    /// The response has no such header.
    Missing,
    /// The header is not text.
    Unreadable,
    /// The value of the header.
    Value(String),
}

/// A [`ContentType`] as mathematical values.
pub enum ContentTypeView {
    Missing,
    Unreadable,
    Value(Seq<char>),
}

impl View for ContentType {
    type V = ContentTypeView;

    open spec fn view(&self) -> ContentTypeView {
        match self {
            ContentType::Missing => ContentTypeView::Missing,
            ContentType::Unreadable => ContentTypeView::Unreadable,
            ContentType::Value(value) => ContentTypeView::Value(value@),
        }
    }
}

/// The media types of which a response is read.
pub open spec fn supported_content(content_type: Seq<char>) -> bool {
    ||| content_type == "application/xml"@
    ||| content_type == "text/xml"@
    ||| content_type == "application/rss+xml"@
    ||| content_type == "application/atom+xml"@
    ||| content_type == "text/html"@
}

/// The media type that a `Content-Type` header names: its value up to the
/// first `;`, so that a `;charset=...` has no part in it.
pub open spec fn media_type(header: Seq<char>) -> Seq<char> {
    before(header, ';')
}

/// Whether a response with this `Content-Type` header is read: `None` if it
/// is, else the error of the page.
pub open spec fn refusal(url: Seq<char>, header: ContentTypeView) -> Option<ErrorView> {
    match header {
        ContentTypeView::Missing => Some(
            ErrorView::Generic("No content type header found on request."@),
        ),
        ContentTypeView::Unreadable => Some(ErrorView::Generic("Content Type parsing error"@)),
        ContentTypeView::Value(value) => if supported_content(media_type(value)) {
            None
        } else {
            Some(ErrorView::Generic("Invalid content "@ + media_type(value) + " for "@ + url))
        },
    }
}

/// What a response that is read gives, from whether its status is a success
/// and its body or the text of the error of reading it: the trimmed body of a
/// success, and an error otherwise, which for another status holds the body.
pub open spec fn page(success: bool, body: Result<Seq<char>, Seq<char>>) -> Result<
    Seq<char>,
    ErrorView,
> {
    if success {
        match body {
            Ok(text) => Ok(trimmed(text)),
            Err(_) => Err(ErrorView::Generic("Body decode error"@)),
        }
    } else {
        match body {
            Ok(text) => Err(ErrorView::Generic(text)),
            Err(cause) => Err(ErrorView::Reqwest(cause)),
        }
    }
}

/// The body of a response or the text of the error of reading it, as
/// characters.
pub open spec fn body_view(body: Result<String, String>) -> Result<Seq<char>, Seq<char>> {
    match body {
        Ok(text) => Ok(text@),
        Err(cause) => Err(cause@),
    }
}

/// The page or its error, as mathematical values.
pub open spec fn page_view(page: Result<String, Error>) -> Result<Seq<char>, ErrorView> {
    match page {
        Ok(text) => Ok(text@),
        Err(error) => Err(error@),
    }
}

/// Whether a response of this media type is read.
pub fn is_supported_content(content_type: &str) -> (supported: bool)
    ensures
        supported == supported_content(content_type@),
{
    same_text(content_type, "application/xml") || same_text(content_type, "text/xml") || same_text(
        content_type,
        "application/rss+xml",
    ) || same_text(content_type, "application/atom+xml") || same_text(content_type, "text/html")
}

/// Decides by the `Content-Type` header of the response to the request for
/// `url` whether the response is read, see [`refusal`].
pub fn check_content_type(url: &str, header: &ContentType) -> (checked: Result<(), Error>)
    ensures
        match checked {
            Ok(_) => refusal(url@, header@) is None,
            Err(error) => refusal(url@, header@) == Some(error@),
        },
{
    match header {
        ContentType::Missing => Err(Error::generic("No content type header found on request.")),
        ContentType::Unreadable => Err(Error::generic("Content Type parsing error")),
        ContentType::Value(value) => {
            let content_type = text_before(value.as_str(), ';');
            if is_supported_content(content_type.as_str()) {
                Ok(())
            } else {
                Err(
                    Error::Generic(
                        String::from_str("Invalid content ").concat(content_type.as_str()).concat(
                            " for ",
                        ).concat(url),
                    ),
                )
            }
        },
    }
}

/// Makes the page of a response that is read, see [`page`].
pub fn page_content(success: bool, body: Result<String, String>) -> (content: Result<String, Error>)
    ensures
        page_view(content) == page(success, body_view(body)),
{
    if success {
        match body {
            Ok(text) => Ok(trim(text.as_str())),
            Err(_) => Err(Error::generic("Body decode error")),
        }
    } else {
        match body {
            Ok(text) => Err(Error::Generic(text)),
            Err(cause) => Err(Error::Reqwest(cause)),
        }
    }
}

/// The warning for a feed that was dropped: its link and, on the next line,
/// the text of the error.
pub open spec fn dropped_feed(link: Seq<char>, cause: Seq<char>) -> Seq<char> {
    "Error in "@ + link + "\n"@ + cause
}

/// The warning for a feed that was dropped, see [`dropped_feed`].
pub fn feed_warning(link: &str, cause: &str) -> (warning: String)
    ensures
        warning@ == dropped_feed(link@, cause@),
{
    String::from_str("Error in ").concat(link).concat("\n").concat(cause)
}

} // verus!
