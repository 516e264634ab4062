//! Parses web feeds according to the RSS and Atom specifications and constructs
//! [`Blog`]s and [`Post`](crate::blog::Post)s.

use crate::blog::{Blog, BlogView};
use vstd::prelude::*;

use self::atom::{atom_blog, atom_document, AtomFeed, AtomFeedView};
use self::error::{outcome, ParserError, ParserErrorView};
use self::rss::{rss_blog, rss_document, RssFeed, RssFeedView};
use self::traits::WebFeed;

pub mod atom;
pub mod date;
pub mod error;
pub mod rss;
pub mod traits;

verus! {

/// The error of a document that is a feed in neither format: the texts of the
/// two errors, each on a line of its own, or the one text if they are the
/// same.
pub open spec fn joined_errors(first: ParserErrorView, second: ParserErrorView) -> ParserErrorView {
    if first.message() == second.message() {
        ParserErrorView::Parse(first.message())
    } else {
        ParserErrorView::Parse(first.message() + "\n"@ + second.message())
    }
}

/// The first of the two blogs that there is, the one read as RSS before the
/// one read as Atom; without either, both errors joined.
pub open spec fn first_blog(
    rss: Result<BlogView, ParserErrorView>,
    atom: Result<BlogView, ParserErrorView>,
) -> Result<BlogView, ParserErrorView> {
    match rss {
        Ok(blog) => Ok(blog),
        Err(first) => match atom {
            Ok(blog) => Ok(blog),
            Err(second) => Err(joined_errors(first, second)),
        },
    }
}

/// The blog of a document, given what deserialising it as RSS and as Atom
/// gave. The formats are tried in this order and never mixed.
pub open spec fn web_feed_blog(
    rss: Result<RssFeedView, Seq<char>>,
    atom: Result<AtomFeedView, Seq<char>>,
) -> Result<BlogView, ParserErrorView> {
    first_blog(rss_blog(rss), atom_blog(atom))
}

/// Joins the errors of the two formats into one, see [`joined_errors`].
pub fn join_errors(first: &ParserError, second: &ParserError) -> (joined: ParserError)
    ensures
        joined@ == joined_errors(first@, second@),
{
    let first_text = first.to_string();
    let second_text = second.to_string();
    if first_text == second_text {
        ParserError::Parse(first_text)
    } else {
        ParserError::Parse(first_text.concat("\n").concat(second_text.as_str()))
    }
}

/// Picks the blog of a document from what converting it as RSS and as Atom
/// gave, see [`first_blog`].
pub fn pick_blog(rss: Result<Blog, ParserError>, atom: Result<Blog, ParserError>) -> (blog: Result<
    Blog,
    ParserError,
>)
    ensures
        outcome(blog) == first_blog(outcome(rss), outcome(atom)),
{
    match rss {
        Ok(blog) => Ok(blog),
        Err(first) => match atom {
            Ok(blog) => Ok(blog),
            Err(second) => Err(join_errors(&first, &second)),
        },
    }
}

/// Turns an XML feed into a `Blog` if possible.
///
/// The caller hands over what deserialising the document gave for either
/// format. The RSS feed is converted first. If that fails, the Atom feed is
/// converted. If both fail, the error holds both errors, see
/// [`joined_errors`].
pub fn parse_web_feed(rss: Result<RssFeed, String>, atom: Result<AtomFeed, String>) -> (blog: Result<
    Blog,
    ParserError,
>)
    ensures
        outcome(blog) == web_feed_blog(rss_document(rss), atom_document(atom)),
{
    match rss.into_blog() {
        Ok(blog) => Ok(blog),
        Err(first) => pick_blog(Err(first), atom.into_blog()),
    }
}

/// Converting a document is a function of the document: whatever two
/// conversions of documents that hold the same values return holds the same
/// values, blog or error.
pub proof fn same_document_same_blog(
    rss: Result<RssFeed, String>,
    atom: Result<AtomFeed, String>,
    again_rss: Result<RssFeed, String>,
    again_atom: Result<AtomFeed, String>,
    first: Result<Blog, ParserError>,
    second: Result<Blog, ParserError>,
)
    requires
        rss_document(rss) == rss_document(again_rss),
        atom_document(atom) == atom_document(again_atom),
        outcome(first) == web_feed_blog(rss_document(rss), atom_document(atom)),
        outcome(second) == web_feed_blog(rss_document(again_rss), atom_document(again_atom)),
    ensures
        outcome(first) == outcome(second),
{
}

/// A document that converts as RSS gives the blog that the RSS conversion
/// gives, whatever reading it as Atom gave.
pub proof fn rss_feed_is_found(
    rss: Result<RssFeedView, Seq<char>>,
    atom: Result<AtomFeedView, Seq<char>>,
)
    requires
        rss_blog(rss) is Ok,
    ensures
        web_feed_blog(rss, atom) == rss_blog(rss),
{
}

/// A document that does not convert as RSS and converts as Atom gives the
/// blog that the Atom conversion gives.
pub proof fn atom_feed_is_found(
    rss: Result<RssFeedView, Seq<char>>,
    atom: Result<AtomFeedView, Seq<char>>,
)
    requires
        rss_blog(rss) is Err,
        atom_blog(atom) is Ok,
    ensures
        web_feed_blog(rss, atom) == atom_blog(atom),
{
}

/// A document fails only if it converts in neither format, and then with a
/// parse error that holds the text of both errors.
pub proof fn failure_names_both_formats(
    rss: Result<RssFeedView, Seq<char>>,
    atom: Result<AtomFeedView, Seq<char>>,
)
    ensures
        web_feed_blog(rss, atom) is Err <==> rss_blog(rss) is Err && atom_blog(atom) is Err,
        web_feed_blog(rss, atom) is Err ==> web_feed_blog(rss, atom)->Err_0 == joined_errors(
            rss_blog(rss)->Err_0,
            atom_blog(atom)->Err_0,
        ),
{
}

} // verus!
