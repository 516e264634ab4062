//! [Specification](https://www.rssboard.org/rss-specification)
//!
//! ```xml
//! <rss>
//!   <channel>
//!     <title></title>
//!     <lastBuildDate>RFC 2822</lastBuildDate>
//!     <pubDate>RFC 2822</pubDate>
//!     <item>
//!       <title></title>
//!       <link></link>
//!       <pubDate>RFC 2822</pubDate>
//!       <description></description>?
//!     </item>
//!   </channel>
//! </rss>
//! ```

use crate::blog::{copy_text_opt, post_views, text_opt, Blog, BlogView, Post, PostView};
use crate::time::UtcInstant;
use crate::xml::date::{dated_view, normalized_date, parse_date_helper};
use crate::xml::error::{outcome, ParserError, ParserErrorView};
use crate::text::texts;
use crate::xml::traits::{dropped_post, keep_posts, kept_posts, post_warning, BlogPost, WebFeed};
use vstd::prelude::*;

verus! {

/// The number of characters of a description above which the title made of
/// it is cut short.
pub const TITLE_LENGTH: usize = 50;

#[derive(Debug, PartialEq, Eq, Clone)]
pub struct RssFeed {
    pub channel: Channel,
}

#[derive(Debug, PartialEq, Eq, Clone)]
pub struct Channel {
    pub title: String,
    /// Kept as the document has it; the date of the blog never comes from it.
    pub last_build_date: Option<String>,
    pub pub_date: Option<String>,
    pub items: Option<Vec<RssPost>>,
}

#[derive(Debug, PartialEq, Eq, Clone)]
pub struct RssPost {
    // RSS allows an item without link or title, provided that there is a description
    // https://www.rssboard.org/rss-specification#hrelementsOfLtitemgt
    pub title: Option<String>,
    pub link: Option<String>,
    pub description: Option<String>,
    pub pub_date: Option<String>,
}

/// An [`RssPost`] as mathematical values.
pub struct RssPostView {
    pub title: Option<Seq<char>>,
    pub link: Option<Seq<char>>,
    pub description: Option<Seq<char>>,
    pub pub_date: Option<Seq<char>>,
}

/// A [`Channel`] as mathematical values.
pub struct ChannelView {
    pub title: Seq<char>,
    pub last_build_date: Option<Seq<char>>,
    pub pub_date: Option<Seq<char>>,
    pub items: Option<Seq<RssPostView>>,
}

/// An [`RssFeed`] as mathematical values.
pub struct RssFeedView {
    pub channel: ChannelView,
}

impl View for RssPost {
    type V = RssPostView;

    open spec fn view(&self) -> RssPostView {
        RssPostView {
            title: text_opt(self.title),
            link: text_opt(self.link),
            description: text_opt(self.description),
            pub_date: text_opt(self.pub_date),
        }
    }
}

impl View for Channel {
    type V = ChannelView;

    open spec fn view(&self) -> ChannelView {
        ChannelView {
            title: self.title@,
            last_build_date: text_opt(self.last_build_date),
            pub_date: text_opt(self.pub_date),
            items: match self.items {
                Some(items) => Some(items@.map_values(|item: RssPost| item@)),
                None => None,
            },
        }
    }
}

impl View for RssFeed {
    type V = RssFeedView;

    open spec fn view(&self) -> RssFeedView {
        RssFeedView { channel: self.channel@ }
    }
}

/// The warning for an item of the feed titled `feed`, if the item is dropped:
/// it names the feed, the item by its title or as `n/a`, and the error.
pub open spec fn item_warning(feed: Seq<char>) -> spec_fn(RssPostView) -> Option<Seq<char>> {
    |item: RssPostView|
        match item.post() {
            Ok(_) => None,
            Err(error) => Some(
                dropped_post(
                    feed,
                    match item.title {
                        Some(title) => title,
                        None => "n/a"@,
                    },
                    error,
                ),
            ),
        }
}

impl ChannelView {
    /// The warnings of the channel: one for each item that is dropped, in
    /// document order.
    pub open spec fn warnings(self) -> Seq<Seq<char>> {
        self.item_list().filter_map(item_warning(self.title))
    }

    /// The items of the channel; none where the document has no item.
    pub open spec fn item_list(self) -> Seq<RssPostView> {
        match self.items {
            Some(items) => items,
            None => Seq::empty(),
        }
    }

    /// The text that dates the whole feed: the channel's own publication date
    /// or, without one, the publication date of the first item.
    pub open spec fn date_text(self) -> Option<Seq<char>> {
        match self.pub_date {
            Some(date) => Some(date),
            None => if self.item_list().len() > 0 {
                self.item_list()[0].pub_date
            } else {
                None
            },
        }
    }

    /// The posts of the channel: its items that convert, in document order.
    pub open spec fn posts(self) -> Seq<PostView> {
        kept_posts(self.item_list().map_values(|item: RssPostView| item.post()))
    }

    /// The blog of the channel if `date` is the text that dates it: the error
    /// of the date, or the channel's title and posts under the instant of the
    /// date.
    pub open spec fn blog_dated(self, date: Seq<char>) -> Result<BlogView, ParserErrorView> {
        blog_of_items(
            self.title,
            Some(normalized_date(date)),
            self.item_list().map_values(|item: RssPostView| item.post()),
        )
    }

    /// The blog that the channel stands for. It fails only for want of a
    /// date of the feed that can be read.
    pub open spec fn blog(self) -> Result<BlogView, ParserErrorView> {
        blog_of_items(
            self.title,
            match self.date_text() {
                Some(date) => Some(normalized_date(date)),
                None => None,
            },
            self.item_list().map_values(|item: RssPostView| item.post()),
        )
    }
}

/// The blog made of a channel's title, the outcome of reading the text that
/// dates it, if there is such a text, and the outcomes of converting its
/// items one by one: without a date that can be read there is none, else it
/// holds the posts of the items that converted, which may be none.
pub open spec fn blog_of_items(
    title: Seq<char>,
    date: Option<Result<UtcInstant, ParserErrorView>>,
    converted: Seq<Result<PostView, ParserErrorView>>,
) -> Result<BlogView, ParserErrorView> {
    match date {
        None => Err(ParserErrorView::Parse("Date not found."@)),
        Some(Err(e)) => Err(e),
        Some(Ok(instant)) => Ok(
            BlogView { title, most_recent_pub_date: instant, posts: kept_posts(converted) },
        ),
    }
}

/// The title and the description of a post made of an item with the given
/// title, description and link.
///
/// A title is kept as it is. Without a title and without a description the
/// link is the title. Without a title, a description of more than 50
/// characters gives its first 50 characters and `...` as the title and stays
/// the description; a shorter one becomes the title and leaves no description.
pub open spec fn title_rule(
    title: Option<Seq<char>>,
    description: Option<Seq<char>>,
    link: Seq<char>,
) -> (Seq<char>, Option<Seq<char>>) {
    match (title, description) {
        (Some(t), d) => (t, d),
        (None, None) => (link, None),
        (None, Some(d)) => if d.len() > TITLE_LENGTH {
            (d.take(TITLE_LENGTH as int) + "..."@, Some(d))
        } else {
            (d, None)
        },
    }
}

impl RssPostView {
    /// The post that the item stands for, given the outcome of reading its
    /// publication date, if it has one: an item needs a link, which is asked
    /// for first, and a publication date that can be read.
    pub open spec fn post_dated(self, date: Option<Result<UtcInstant, ParserErrorView>>) -> Result<
        PostView,
        ParserErrorView,
    > {
        match self.link {
            None => Err(ParserErrorView::Parse("No link in post"@)),
            Some(link) => match date {
                None => Err(ParserErrorView::Parse("Date not found."@)),
                Some(Err(e)) => Err(e),
                Some(Ok(instant)) => Ok(
                    PostView {
                        title: title_rule(self.title, self.description, link).0,
                        link,
                        description: title_rule(self.title, self.description, link).1,
                        pub_date: instant,
                    },
                ),
            },
        }
    }

    /// The post that the item stands for: an item needs a link and a
    /// publication date that can be read.
    pub open spec fn post(self) -> Result<PostView, ParserErrorView> {
        self.post_dated(
            match self.pub_date {
                Some(date) => Some(normalized_date(date)),
                None => None,
            },
        )
    }
}

/// The title and the description of the post made of an item, see
/// [`title_rule`].
pub fn title_and_description(title: Option<String>, description: Option<String>, link: &str) -> (made:
    (String, Option<String>))
    ensures
        (made.0@, text_opt(made.1)) == title_rule(text_opt(title), text_opt(description), link@),
{
    match (title, description) {
        (Some(t), d) => (t, d),
        (None, None) => (String::from_str(link), None),
        (None, Some(d)) => {
            if d.as_str().unicode_len() > TITLE_LENGTH {
                let start = d.as_str().substring_char(0, TITLE_LENGTH);
                (String::from_str(start).concat("..."), Some(d))
            } else {
                (d, None)
            }
        },
    }
}

impl Channel {
    /// The warnings of the channel, see [`ChannelView::warnings`].
    pub fn warnings(&self) -> (warnings: Vec<String>)
        ensures
            texts(warnings@) == self@.warnings(),
    {
        let mut warnings: Vec<String> = Vec::new();
        let items = match &self.items {
            Some(items) => items,
            None => {
                proof {
                    assert(self@.item_list().filter_map(item_warning(self@.title)) == Seq::<
                        Seq<char>,
                    >::empty());
                }
                return warnings;
            },
        };
        let ghost views = self@.item_list();
        let ghost warn = item_warning(self@.title);
        let mut i: usize = 0;
        while i < items.len()
            invariant
                i <= items.len(),
                self.items == Some(*items),
                views == self@.item_list(),
                warn == item_warning(self@.title),
                texts(warnings@) == views.take(i as int).filter_map(warn),
            decreases items.len() - i,
        {
            proof {
                views.lemma_filter_map_take_succ(warn, i as int);
            }
            match items[i].to_post() {
                Ok(_) => {},
                Err(error) => {
                    let warning = match &items[i].title {
                        Some(title) => post_warning(self.title.as_str(), title.as_str(), &error),
                        None => post_warning(self.title.as_str(), "n/a", &error),
                    };
                    proof {
                        assert(texts(warnings@.push(warning)) == texts(warnings@).push(warning@));
                    }
                    warnings.push(warning);
                },
            }
            i += 1;
        }
        proof {
            assert(views.take(i as int) == views);
        }
        warnings
    }

    /// The text that dates the whole feed, see [`ChannelView::date_text`].
    pub fn date_text(&self) -> (date: Option<String>)
        ensures
            text_opt(date) == self@.date_text(),
    {
        match &self.pub_date {
            Some(date) => Some(date.clone()),
            None => match &self.items {
                Some(items) => if items.len() > 0 {
                    copy_text_opt(&items[0].pub_date)
                } else {
                    None
                },
                None => None,
            },
        }
    }
}

impl RssPost {
    /// Makes the post of the item from the outcome of reading its publication
    /// date, if it has one, see [`RssPostView::post_dated`].
    pub fn post_dated(&self, date: Option<Result<UtcInstant, ParserError>>) -> (post: Result<
        Post,
        ParserError,
    >)
        ensures
            outcome(post) == self@.post_dated(dated_view(date)),
    {
        let link = match &self.link {
            Some(link) => link.clone(),
            None => {
                return Err(ParserError::parse_error("No link in post"));
            },
        };
        let instant = match date {
            None => {
                return Err(ParserError::parse_error("Date not found."));
            },
            Some(Err(e)) => {
                return Err(e);
            },
            Some(Ok(instant)) => instant,
        };
        let (title, description) = title_and_description(
            copy_text_opt(&self.title),
            copy_text_opt(&self.description),
            link.as_str(),
        );
        Ok(Post { title, link, description, pub_date: instant })
    }

    /// The post that the item stands for, see [`RssPostView::post`].
    pub fn to_post(&self) -> (post: Result<Post, ParserError>)
        ensures
            outcome(post) == self@.post(),
    {
        if self.link.is_none() {
            return self.post_dated(None);
        }
        match &self.pub_date {
            Some(date) => self.post_dated(Some(parse_date_helper(date.as_str()))),
            None => self.post_dated(None),
        }
    }
}

/// Makes the blog of a channel from its title, the outcome of reading the
/// text that dates it, if there is such a text, and the outcomes of
/// converting its items one by one, see [`blog_of_items`].
pub fn blog_from_items(
    title: String,
    date: Option<Result<UtcInstant, ParserError>>,
    converted: Vec<Result<Post, ParserError>>,
) -> (blog: Result<Blog, ParserError>)
    ensures
        outcome(blog) == blog_of_items(
            title@,
            dated_view(date),
            converted@.map_values(|r| outcome(r)),
        ),
{
    match date {
        None => Err(ParserError::parse_error("Date not found.")),
        Some(Err(e)) => Err(e),
        Some(Ok(instant)) => Ok(
            Blog { title, most_recent_pub_date: instant, posts: keep_posts(converted) },
        ),
    }
}

impl BlogPost for RssPost {
    open spec fn post(self) -> Result<PostView, ParserErrorView> {
        self@.post()
    }

    fn into_post(self) -> (post: Result<Post, ParserError>) {
        self.to_post()
    }
}

/// What deserialising a document as RSS gave: the feed, or the text of the
/// error.
pub open spec fn rss_document(document: Result<RssFeed, String>) -> Result<RssFeedView, Seq<char>> {
    match document {
        Ok(feed) => Ok(feed@),
        Err(e) => Err(e@),
    }
}

/// The blog that the outcome of deserialising a document as RSS stands for:
/// that of its channel, or a parse error with the text of the failure.
pub open spec fn rss_blog(document: Result<RssFeedView, Seq<char>>) -> Result<
    BlogView,
    ParserErrorView,
> {
    match document {
        Ok(feed) => feed.channel.blog(),
        Err(e) => Err(ParserErrorView::Parse(e)),
    }
}

/// Converts the items one by one, each on its own.
fn convert_items(items: &Vec<RssPost>) -> (converted: Vec<Result<Post, ParserError>>)
    ensures
        converted@.map_values(|r| outcome(r)) == items@.map_values(|item: RssPost| item@.post()),
{
    let mut converted: Vec<Result<Post, ParserError>> = Vec::new();
    let mut i: usize = 0;
    while i < items.len()
        invariant
            i <= items.len(),
            converted@.map_values(|r| outcome(r)) == items@.take(i as int).map_values(
                |item: RssPost| item@.post(),
            ),
        decreases items.len() - i,
    {
        let ghost before = converted@;
        let post = items[i].to_post();
        converted.push(post);
        proof {
            assert(converted@.map_values(|r| outcome(r)) == before.map_values(
                |r| outcome(r),
            ).push(outcome(post)));
            assert(items@.take(i + 1).map_values(|item: RssPost| item@.post()) == items@.take(
                i as int,
            ).map_values(|item: RssPost| item@.post()).push(items@[i as int]@.post()));
        }
        i += 1;
    }
    proof {
        assert(items@.take(items@.len() as int) == items@);
    }
    converted
}

impl WebFeed for Result<RssFeed, String> {
    open spec fn blog(self) -> Result<BlogView, ParserErrorView> {
        rss_blog(rss_document(self))
    }

    fn into_blog(self) -> (blog: Result<Blog, ParserError>) {
        let feed = match self {
            Ok(feed) => feed,
            Err(e) => {
                return Err(ParserError::Parse(e));
            },
        };
        let channel = feed.channel;
        let date = match channel.date_text() {
            Some(date) => date,
            None => {
                return Err(ParserError::parse_error("Date not found."));
            },
        };
        let title = channel.title;
        let items = match channel.items {
            Some(items) => items,
            None => Vec::new(),
        };
        let ghost item_views = items@.map_values(|item: RssPost| item@);
        let converted = convert_items(&items);
        proof {
            assert(item_views == channel@.item_list());
            assert(items@.map_values(|item: RssPost| item@.post()) == item_views.map_values(
                |item: RssPostView| item.post(),
            ));
        }
        blog_from_items(title, Some(parse_date_helper(date.as_str())), converted)
    }
}

/// The title made of a description is cut at 50 characters: one of 51
/// characters gives its first 50 and `...` and is kept, one of 50 becomes the
/// title as it is and leaves no description.
pub proof fn title_rule_boundary(description: Seq<char>, link: Seq<char>)
    ensures
        description.len() == 51 ==> title_rule(None, Some(description), link) == (
            description.take(50) + "..."@,
            Some(description),
        ),
        description.len() == 50 ==> title_rule(None, Some(description), link) == (
            description,
            None::<Seq<char>>,
        ),
{
}

/// The title of a post is empty only if the text it is taken from is: the
/// item's title, else its description, else its link.
pub proof fn title_is_not_empty(
    title: Option<Seq<char>>,
    description: Option<Seq<char>>,
    link: Seq<char>,
)
    requires
        match (title, description) {
            (Some(t), _) => t.len() > 0,
            (None, Some(d)) => d.len() > 0,
            (None, None) => link.len() > 0,
        },
    ensures
        title_rule(title, description, link).0.len() > 0,
{
}

/// An item without a link is no post, whatever else it holds.
pub proof fn item_without_link_is_no_post(item: RssPostView)
    requires
        item.link is None,
    ensures
        item.post() == Err::<PostView, ParserErrorView>(ParserErrorView::Parse("No link in post"@)),
{
}

/// An item without a link is absent from the posts: they are the posts of
/// the channel without that item. Every post that there is holds the link of
/// the item it was made of. The feed does not fail for the item: if the text
/// that dates the feed can be read there is a blog, and it holds these posts.
pub proof fn item_without_link_is_absent(channel: ChannelView, k: int)
    requires
        0 <= k < channel.item_list().len(),
        channel.item_list()[k].link is None,
    ensures
        channel.posts() == (ChannelView {
            items: Some(channel.item_list().remove(k)),
            ..channel
        }).posts(),
        (channel.date_text() matches Some(date) && normalized_date(date) is Ok) ==> (
        channel.blog() matches Ok(blog) && blog.posts == (ChannelView {
            items: Some(channel.item_list().remove(k)),
            ..channel
        }).posts()),
        forall|i: int|
            0 <= i < channel.posts().len() ==> exists|j: int|
                0 <= j < channel.item_list().len() && j != k && channel.item_list()[j].link == Some(
                    (#[trigger] channel.posts()[i]).link,
                ),
{
    let items = channel.item_list();
    let converted = items.map_values(|item: RssPostView| item.post());
    crate::xml::traits::failure_leaves_no_post(converted, k);
    assert(converted.remove(k) == items.remove(k).map_values(|item: RssPostView| item.post()));
    let places = crate::xml::traits::kept_posts_origin(converted);
    assert forall|i: int| 0 <= i < channel.posts().len() implies exists|j: int|
        0 <= j < channel.item_list().len() && j != k && channel.item_list()[j].link == Some(
            (#[trigger] channel.posts()[i]).link,
        ) by {
        let j = places[i];
        assert(converted[j] == items[j].post());
        assert(0 <= j < channel.item_list().len() && j != k && channel.item_list()[j].link == Some(
            channel.posts()[i].link,
        ));
    }
}

/// Whether a channel gives a blog is a matter of its date alone: with a date
/// that can be read the blog is there, whatever its items are, and holds the
/// posts of the items that convert.
pub proof fn feed_outlives_its_items(channel: ChannelView)
    ensures
        channel.blog() is Ok <==> (channel.date_text() matches Some(date) && normalized_date(
            date,
        ) is Ok),
        channel.blog() matches Ok(blog) ==> blog.posts == channel.posts() && blog.title
            == channel.title,
{
}

/// The date of the feed is the channel's publication date where it has one,
/// else that of its first item, and without either the feed fails for want of
/// a date. The date of the last build has no part in it.
pub proof fn feed_date_order(channel: ChannelView, last_build_date: Option<Seq<char>>)
    ensures
        channel.pub_date matches Some(date) ==> channel.blog() == channel.blog_dated(date),
        channel.pub_date is None && channel.item_list().len() > 0 ==> (
        channel.item_list()[0].pub_date matches Some(date) ==> channel.blog() == channel.blog_dated(
            date,
        )),
        channel.pub_date is None && (channel.item_list().len() == 0
            || channel.item_list()[0].pub_date is None) ==> channel.blog() == Err::<
            BlogView,
            ParserErrorView,
        >(ParserErrorView::Parse("Date not found."@)),
        (ChannelView { last_build_date, ..channel }).blog() == channel.blog(),
{
    let other = ChannelView { last_build_date, ..channel };
    assert(other.item_list() == channel.item_list());
    assert(other.posts() == channel.posts());
}

} // verus!
