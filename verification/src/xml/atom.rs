//! [Specification](https://www.rfc-editor.org/rfc/rfc4287)
//!
//! ```xml
//! <feed>
//!   <title></title>
//!   <updated>ISO.8601</updated>
//!   <entry>
//!     <title></title>
//!     <link href=""/>
//!     <updated>ISO.8601</updated>
//!     <published>ISO.8601</published>?
//!     <summary></summary>?
//!   </entry>
//! </feed>
//! ```

use crate::blog::{copy_text_opt, post_views, text_opt, Blog, BlogView, Post, PostView};
use crate::time::UtcInstant;
use crate::xml::date::{atom_date, date_view, parse_atom_date};
use crate::xml::error::{outcome, ParserError, ParserErrorView};
use crate::text::texts;
use crate::xml::traits::{dropped_post, keep_posts, kept_posts, post_warning, BlogPost, WebFeed};
use vstd::prelude::*;

verus! {

#[derive(Debug, PartialEq, Eq, Clone)]
pub struct AtomFeed {
    pub title: String,
    pub entries: Vec<AtomPost>,
}

#[derive(Debug, PartialEq, Eq, Clone)]
pub struct AtomPost {
    pub title: String,
    pub links: Vec<Link>,
    pub summary: Option<String>,
    pub published: Option<String>,
    pub updated: String,
}

#[derive(Debug, PartialEq, Eq, Clone)]
pub struct Link {
    pub href: String,
}

/// An [`AtomPost`] as mathematical values; a link is the text of its `href`.
pub struct AtomPostView {
    pub title: Seq<char>,
    pub links: Seq<Seq<char>>,
    pub summary: Option<Seq<char>>,
    pub published: Option<Seq<char>>,
    pub updated: Seq<char>,
}

/// An [`AtomFeed`] as mathematical values.
pub struct AtomFeedView {
    pub title: Seq<char>,
    pub entries: Seq<AtomPostView>,
}

impl View for Link {
    type V = Seq<char>;

    open spec fn view(&self) -> Seq<char> {
        self.href@
    }
}

impl View for AtomPost {
    type V = AtomPostView;

    open spec fn view(&self) -> AtomPostView {
        AtomPostView {
            title: self.title@,
            links: self.links@.map_values(|link: Link| link@),
            summary: text_opt(self.summary),
            published: text_opt(self.published),
            updated: self.updated@,
        }
    }
}

impl View for AtomFeed {
    type V = AtomFeedView;

    open spec fn view(&self) -> AtomFeedView {
        AtomFeedView {
            title: self.title@,
            entries: self.entries@.map_values(|entry: AtomPost| entry@),
        }
    }
}

impl AtomPostView {
    /// The text that dates the entry: when it was published or, where the
    /// document does not say, when it was last updated.
    pub open spec fn date_text(self) -> Seq<char> {
        match self.published {
            Some(published) => published,
            None => self.updated,
        }
    }

    /// The post that the entry stands for, given the outcome of reading its
    /// date: an entry needs a link, which is asked for first and of which the
    /// first is taken, and a date that can be read.
    pub open spec fn post_dated(self, date: Result<UtcInstant, ParserErrorView>) -> Result<
        PostView,
        ParserErrorView,
    > {
        if self.links.len() == 0 {
            Err(ParserErrorView::Parse("No link in post"@))
        } else {
            match date {
                Err(e) => Err(e),
                Ok(instant) => Ok(
                    PostView {
                        title: self.title,
                        link: self.links[0],
                        description: self.summary,
                        pub_date: instant,
                    },
                ),
            }
        }
    }

    /// The post that the entry stands for: an entry needs a link, of which
    /// the first is taken, and a date that can be read.
    pub open spec fn post(self) -> Result<PostView, ParserErrorView> {
        self.post_dated(atom_date(self.date_text()))
    }
}

/// The latest publication date among `posts`, which must not be empty.
pub open spec fn latest_date(posts: Seq<PostView>) -> UtcInstant
    recommends
        posts.len() > 0,
    decreases posts.len(),
{
    if posts.len() <= 1 {
        posts[0].pub_date
    } else {
        latest_date(posts.drop_last()).later_of(posts.last().pub_date)
    }
}

/// The blog made of a feed's title and the outcomes of converting its
/// entries one by one: the posts are the entries that converted, the date of
/// the blog is the latest of theirs, and a feed without a post is an error.
pub open spec fn blog_of_entries(
    title: Seq<char>,
    converted: Seq<Result<PostView, ParserErrorView>>,
) -> Result<BlogView, ParserErrorView> {
    let posts = kept_posts(converted);
    if posts.len() == 0 {
        Err(ParserErrorView::Parse("Empty feed: "@ + title))
    } else {
        Ok(BlogView { title, most_recent_pub_date: latest_date(posts), posts })
    }
}

/// The warning for an entry of the feed titled `feed`, if the entry is
/// dropped: it names the feed, the entry by its title, and the error.
pub open spec fn entry_warning(feed: Seq<char>) -> spec_fn(AtomPostView) -> Option<Seq<char>> {
    |entry: AtomPostView|
        match entry.post() {
            Ok(_) => None,
            Err(error) => Some(dropped_post(feed, entry.title, error)),
        }
}

impl AtomFeedView {
    /// The warnings of the feed: one for each entry that is dropped, in
    /// document order.
    pub open spec fn warnings(self) -> Seq<Seq<char>> {
        self.entries.filter_map(entry_warning(self.title))
    }

    /// The blog that the feed stands for.
    pub open spec fn blog(self) -> Result<BlogView, ParserErrorView> {
        blog_of_entries(self.title, self.entries.map_values(|entry: AtomPostView| entry.post()))
    }
}

/// The latest publication date among `posts`.
pub fn most_recent(posts: &Vec<Post>) -> (latest: UtcInstant)
    requires
        posts.len() > 0,
    ensures
        latest == latest_date(post_views(posts@)),
{
    let ghost views = post_views(posts@);
    let mut latest = posts[0].pub_date;
    let mut i: usize = 1;
    proof {
        assert(views.take(1).len() == 1);
    }
    while i < posts.len()
        invariant
            1 <= i <= posts.len(),
            views == post_views(posts@),
            latest == latest_date(views.take(i as int)),
        decreases posts.len() - i,
    {
        proof {
            assert(views.take(i + 1).drop_last() == views.take(i as int));
            assert(views.take(i + 1).last() == posts@[i as int]@);
        }
        latest = latest.max(posts[i].pub_date);
        i += 1;
    }
    proof {
        assert(views.take(i as int) == views);
    }
    latest
}

/// Makes the blog of a feed from its title and the outcomes of converting its
/// entries one by one, see [`blog_of_entries`].
pub fn blog_from_entries(title: String, converted: Vec<Result<Post, ParserError>>) -> (blog: Result<
    Blog,
    ParserError,
>)
    ensures
        outcome(blog) == blog_of_entries(title@, converted@.map_values(|r| outcome(r))),
{
    let posts = keep_posts(converted);
    if posts.len() == 0 {
        return Err(ParserError::Parse(String::from_str("Empty feed: ").concat(title.as_str())));
    }
    let most_recent_pub_date = most_recent(&posts);
    Ok(Blog { title, most_recent_pub_date, posts })
}

impl AtomPost {
    /// The text that dates the entry, see [`AtomPostView::date_text`].
    pub fn date_text(&self) -> (date: &String)
        ensures
            date@ == self@.date_text(),
    {
        // Use publish date if exists otherwise fallback to updated
        match &self.published {
            Some(published) => published,
            None => &self.updated,
        }
    }

    /// Makes the post of the entry from the outcome of reading its date, see
    /// [`AtomPostView::post_dated`].
    pub fn post_dated(&self, date: Result<UtcInstant, ParserError>) -> (post: Result<
        Post,
        ParserError,
    >)
        ensures
            outcome(post) == self@.post_dated(date_view(date)),
    {
        if self.links.len() == 0 {
            return Err(ParserError::parse_error("No link in post"));
        }
        // Use the first link for now
        let link = self.links[0].href.clone();
        match date {
            Ok(instant) => Ok(
                Post {
                    title: self.title.clone(),
                    link,
                    description: copy_text_opt(&self.summary),
                    pub_date: instant,
                },
            ),
            Err(e) => Err(e),
        }
    }

    /// The post that the entry stands for, see [`AtomPostView::post`].
    pub fn to_post(&self) -> (post: Result<Post, ParserError>)
        ensures
            outcome(post) == self@.post(),
    {
        if self.links.len() == 0 {
            return Err(ParserError::parse_error("No link in post"));
        }
        self.post_dated(parse_atom_date(self.date_text().as_str()))
    }
}

impl BlogPost for AtomPost {
    open spec fn post(self) -> Result<PostView, ParserErrorView> {
        self@.post()
    }

    fn into_post(self) -> (post: Result<Post, ParserError>) {
        self.to_post()
    }
}

/// What deserialising a document as Atom gave: the feed, or the text of the
/// error.
pub open spec fn atom_document(document: Result<AtomFeed, String>) -> Result<
    AtomFeedView,
    Seq<char>,
> {
    match document {
        Ok(feed) => Ok(feed@),
        Err(e) => Err(e@),
    }
}

/// The blog that the outcome of deserialising a document as Atom stands for:
/// that of the feed, or a parse error with the text of the failure.
pub open spec fn atom_blog(document: Result<AtomFeedView, Seq<char>>) -> Result<
    BlogView,
    ParserErrorView,
> {
    match document {
        Ok(feed) => feed.blog(),
        Err(e) => Err(ParserErrorView::Parse(e)),
    }
}

/// Converts the entries one by one, each on its own.
fn convert_entries(entries: &Vec<AtomPost>) -> (converted: Vec<Result<Post, ParserError>>)
    ensures
        converted@.map_values(|r| outcome(r)) == entries@.map_values(
            |entry: AtomPost| entry@.post(),
        ),
{
    let mut converted: Vec<Result<Post, ParserError>> = Vec::new();
    let mut i: usize = 0;
    while i < entries.len()
        invariant
            i <= entries.len(),
            converted@.map_values(|r| outcome(r)) == entries@.take(i as int).map_values(
                |entry: AtomPost| entry@.post(),
            ),
        decreases entries.len() - i,
    {
        let ghost before = converted@;
        let post = entries[i].to_post();
        converted.push(post);
        proof {
            assert(converted@.map_values(|r| outcome(r)) == before.map_values(
                |r| outcome(r),
            ).push(outcome(post)));
            assert(entries@.take(i + 1).map_values(|entry: AtomPost| entry@.post())
                == entries@.take(i as int).map_values(|entry: AtomPost| entry@.post()).push(
                entries@[i as int]@.post(),
            ));
        }
        i += 1;
    }
    proof {
        assert(entries@.take(entries@.len() as int) == entries@);
    }
    converted
}

impl AtomFeed {
    /// The warnings of the feed, see [`AtomFeedView::warnings`].
    pub fn warnings(&self) -> (warnings: Vec<String>)
        ensures
            texts(warnings@) == self@.warnings(),
    {
        let ghost views = self@.entries;
        let ghost warn = entry_warning(self@.title);
        let mut warnings: Vec<String> = Vec::new();
        let mut i: usize = 0;
        while i < self.entries.len()
            invariant
                i <= self.entries.len(),
                views == self@.entries,
                warn == entry_warning(self@.title),
                texts(warnings@) == views.take(i as int).filter_map(warn),
            decreases self.entries.len() - i,
        {
            proof {
                views.lemma_filter_map_take_succ(warn, i as int);
            }
            match self.entries[i].to_post() {
                Ok(_) => {},
                Err(error) => {
                    let warning = post_warning(
                        self.title.as_str(),
                        self.entries[i].title.as_str(),
                        &error,
                    );
                    proof {
                        assert(texts(warnings@.push(warning)) == texts(warnings@).push(warning@));
                    }
                    warnings.push(warning);
                },
            }
            i += 1;
        }
        proof {
            assert(views.take(i as int) == views);
        }
        warnings
    }
}

impl WebFeed for Result<AtomFeed, String> {
    open spec fn blog(self) -> Result<BlogView, ParserErrorView> {
        atom_blog(atom_document(self))
    }

    fn into_blog(self) -> (blog: Result<Blog, ParserError>) {
        let feed = match self {
            Ok(feed) => feed,
            Err(e) => {
                return Err(ParserError::Parse(e));
            },
        };
        let ghost entry_views = feed@.entries;
        let converted = convert_entries(&feed.entries);
        proof {
            assert(converted@.map_values(|r| outcome(r)) == entry_views.map_values(
                |entry: AtomPostView| entry.post(),
            ));
        }
        blog_from_entries(feed.title, converted)
    }
}

/// The date of an Atom blog is the latest of its posts: it is the date of one
/// of them and none of them is later.
pub proof fn latest_date_is_latest(posts: Seq<PostView>)
    requires
        posts.len() > 0,
    ensures
        forall|i: int|
            0 <= i < posts.len() ==> !latest_date(posts).precedes((#[trigger] posts[i]).pub_date),
        exists|j: int| 0 <= j < posts.len() && (#[trigger] posts[j]).pub_date == latest_date(posts),
    decreases posts.len(),
{
    if posts.len() > 1 {
        let before = posts.drop_last();
        latest_date_is_latest(before);
        assert forall|i: int| 0 <= i < posts.len() implies !latest_date(posts).precedes(
            (#[trigger] posts[i]).pub_date,
        ) by {
            if i < posts.len() - 1 {
                assert(before[i] == posts[i]);
            }
        }
        if latest_date(before).precedes(posts.last().pub_date) {
            assert(posts[posts.len() - 1].pub_date == latest_date(posts));
        } else {
            let j = choose|j: int|
                0 <= j < before.len() && (#[trigger] before[j]).pub_date == latest_date(before);
            assert(posts[j].pub_date == latest_date(posts));
        }
    } else {
        assert(posts[0].pub_date == latest_date(posts));
    }
}

/// An Atom feed gives a blog exactly when one of its entries converts; the
/// blog holds the title of the feed and the posts of the entries that
/// convert, and is never empty. A feed of which no entry converts is the
/// error `Empty feed:` with its title.
pub proof fn atom_feed_needs_a_post(feed: AtomFeedView)
    ensures
        feed.blog() is Ok <==> exists|i: int|
            0 <= i < feed.entries.len() && (#[trigger] feed.entries[i]).post() is Ok,
        feed.blog() matches Ok(blog) ==> blog.posts.len() > 0 && blog.title == feed.title
            && blog.most_recent_pub_date == latest_date(blog.posts),
        feed.blog() matches Err(e) ==> e == ParserErrorView::Parse("Empty feed: "@ + feed.title),
{
    let converted = feed.entries.map_values(|entry: AtomPostView| entry.post());
    crate::xml::traits::kept_posts_count(converted);
    let is_post = |r: Result<PostView, ParserErrorView>| r is Ok;
    if exists|i: int| 0 <= i < feed.entries.len() && (#[trigger] feed.entries[i]).post() is Ok {
        let i = choose|i: int|
            0 <= i < feed.entries.len() && (#[trigger] feed.entries[i]).post() is Ok;
        assert(is_post(converted[i]));
        converted.lemma_filter_contains(is_post, i);
        assert(converted.filter(is_post).len() > 0);
    } else {
        assert forall|i: int| 0 <= i < converted.len() implies !is_post(#[trigger] converted[i]) by {
            assert(converted[i] == feed.entries[i].post());
        }
        converted.lemma_all_neg_filter_empty(is_post);
    }
}

} // verus!
