//! The page that lists the posts of a run, blog by blog.

use crate::blog::{blog_views, post_views, Blog, BlogView, Post, PostView};
use vstd::prelude::*;

verus! {

/// The heading of the page for the day written as `date`.
pub open spec fn title_html(date: Seq<char>) -> Seq<char> {
    "<h1>Rss2Email - "@ + date + "</h1>"@
}

/// The list item of a post: its title as a link to it.
pub open spec fn post_html(post: PostView) -> Seq<char> {
    "<li><a href=\""@ + post.link + "\">"@ + post.title + "</a></li>"@
}

/// The list items of `posts`, in order.
pub open spec fn posts_html(posts: Seq<PostView>) -> Seq<char>
    decreases posts.len(),
{
    if posts.len() == 0 {
        Seq::empty()
    } else {
        posts_html(posts.drop_last()) + post_html(posts.last())
    }
}

/// The section of a blog: its title above the list of its posts.
pub open spec fn blog_html(blog: BlogView) -> Seq<char> {
    "<h2>"@ + blog.title + "</h2><ul>"@ + posts_html(blog.posts) + "</ul>"@
}

/// The sections of `blogs`, in order.
pub open spec fn blogs_html(blogs: Seq<BlogView>) -> Seq<char>
    decreases blogs.len(),
{
    if blogs.len() == 0 {
        Seq::empty()
    } else {
        blogs_html(blogs.drop_last()) + blog_html(blogs.last())
    }
}

/// Today's date in UTC as `chrono::Utc::now` and `DateTime::date_naive` give
/// it, in the text of its `Display`. Every call may return another date:
/// nothing is promised of the result. chrono expects of the system clock that
/// it is not set back before 1970.
#[verifier::external_body]
fn today() -> String {
    chrono::Utc::now().date_naive().to_string()
}

/// The heading of the page for the day written as `date`.
pub fn html_title_on(date: &str) -> (title: String)
    ensures
        title@ == title_html(date@),
{
    String::from_str("<h1>Rss2Email - ").concat(date).concat("</h1>")
}

/// A basic <h1> element with the current date.
pub fn html_title() -> (title: String)
    ensures
        exists|date: Seq<char>| title@ == title_html(date),
{
    let date = today();
    html_title_on(date.as_str())
}

/// The section of a blog, see [`blog_html`].
pub fn blog_to_html(blog: &Blog) -> (html: String)
    ensures
        html@ == blog_html(blog@),
{
    let ghost posts = post_views(blog.posts@);
    let mut html = String::from_str("<h2>").concat(blog.title.as_str()).concat("</h2><ul>");
    let mut i: usize = 0;
    while i < blog.posts.len()
        invariant
            i <= blog.posts.len(),
            posts == post_views(blog.posts@),
            html@ == "<h2>"@ + blog.title@ + "</h2><ul>"@ + posts_html(posts.take(i as int)),
        decreases blog.posts.len() - i,
    {
        let post = &blog.posts[i];
        proof {
            assert(posts.take(i + 1).drop_last() == posts.take(i as int));
            assert(posts.take(i + 1).last() == post@);
        }
        html = html.concat("<li><a href=\"").concat(post.link.as_str()).concat("\">").concat(
            post.title.as_str(),
        ).concat("</a></li>");
        assert(html@ == "<h2>"@ + blog.title@ + "</h2><ul>"@ + posts_html(posts.take(i + 1)));
        i += 1;
    }
    proof {
        assert(posts.take(i as int) == posts);
    }
    html.concat("</ul>")
}

/// The page under the given heading: the heading, then the section of every
/// blog in order.
pub fn map_to_html_under(title: String, blogs: &Vec<Blog>) -> (html: String)
    ensures
        html@ == title@ + blogs_html(blog_views(blogs@)),
{
    let ghost views = blog_views(blogs@);
    let mut res = title;
    let mut i: usize = 0;
    while i < blogs.len()
        invariant
            i <= blogs.len(),
            views == blog_views(blogs@),
            res@ == title@ + blogs_html(views.take(i as int)),
        decreases blogs.len() - i,
    {
        proof {
            assert(views.take(i + 1).drop_last() == views.take(i as int));
            assert(views.take(i + 1).last() == blogs@[i as int]@);
        }
        let section = blog_to_html(&blogs[i]);
        res = res.concat(section.as_str());
        assert(res@ == title@ + blogs_html(views.take(i + 1)));
        i += 1;
    }
    proof {
        assert(views.take(i as int) == views);
    }
    res
}

/// Generates the HTML contents corresponding to the given Blog collection.
pub fn map_to_html(blogs: &Vec<Blog>) -> (html: String)
    ensures
        exists|date: Seq<char>| html@ == title_html(date) + blogs_html(blog_views(blogs@)),
{
    map_to_html_under(html_title(), blogs)
}

} // verus!
