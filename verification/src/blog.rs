//! The canonical model that every feed format is normalised to.

use crate::time::UtcInstant;
use vstd::prelude::*;

verus! {

/// Internal representation of a web feed.
#[derive(Debug, Clone, PartialEq, Eq)]
pub struct Blog {
    pub title: String,
    /// The instant by which the whole feed is judged recent.
    pub most_recent_pub_date: UtcInstant,
    /// The posts, in the order of the source document.
    pub posts: Vec<Post>,
}

/// Internal representation of a web feed post.
///
/// The `pub_date` field prefers the publication date and falls back to the
/// date of the last update.
#[derive(Debug, Clone, PartialEq, Eq)]
pub struct Post {
    pub title: String,
    pub link: String,
    pub description: Option<String>,
    pub pub_date: UtcInstant,
}

/// What a [`Post`] holds, as mathematical values.
pub struct PostView {
    pub title: Seq<char>,
    pub link: Seq<char>,
    pub description: Option<Seq<char>>,
    pub pub_date: UtcInstant,
}

/// What a [`Blog`] holds, as mathematical values.
pub struct BlogView {
    pub title: Seq<char>,
    pub most_recent_pub_date: UtcInstant,
    pub posts: Seq<PostView>,
}

/// The characters of an optional string.
pub open spec fn text_opt(text: Option<String>) -> Option<Seq<char>> {
    match text {
        Some(t) => Some(t@),
        None => None,
    }
}

/// The views of a sequence of posts.
pub open spec fn post_views(posts: Seq<Post>) -> Seq<PostView> {
    posts.map_values(|p: Post| p@)
}

/// The views of a sequence of blogs.
pub open spec fn blog_views(blogs: Seq<Blog>) -> Seq<BlogView> {
    blogs.map_values(|b: Blog| b@)
}

impl View for Post {
    type V = PostView;

    open spec fn view(&self) -> PostView {
        PostView {
            title: self.title@,
            link: self.link@,
            description: text_opt(self.description),
            pub_date: self.pub_date,
        }
    }
}

impl View for Blog {
    type V = BlogView;

    open spec fn view(&self) -> BlogView {
        BlogView {
            title: self.title@,
            most_recent_pub_date: self.most_recent_pub_date,
            posts: post_views(self.posts@),
        }
    }
}

/// A copy of an optional string.
pub fn copy_text_opt(text: &Option<String>) -> (copy: Option<String>)
    ensures
        text_opt(copy) == text_opt(*text),
{
    match text {
        Some(t) => Some(t.clone()),
        None => None,
    }
}

} // verus!
