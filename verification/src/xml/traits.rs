//! What the feed formats have in common: each converts to the canonical model.

use crate::blog::{Blog, BlogView, Post, PostView};
use crate::xml::error::{outcome, ParserError, ParserErrorView};
use vstd::prelude::*;

verus! {

/// Represents a web feed that can be converted to a [`Blog`].
pub trait WebFeed: Sized {
    /// The blog that the feed stands for, or why it stands for none.
    spec fn blog(self) -> Result<BlogView, ParserErrorView>;

    fn into_blog(self) -> (blog: Result<Blog, ParserError>)
        ensures
            outcome(blog) == self.blog(),
    ;
}

/// Represents an object that can be converted to a [`Post`].
pub trait BlogPost: Sized {
    /// The post that the object stands for, or why it stands for none.
    spec fn post(self) -> Result<PostView, ParserErrorView>;

    fn into_post(self) -> (post: Result<Post, ParserError>)
        ensures
            outcome(post) == self.post(),
    ;
}

/// The warning for an item that is dropped: the title of the feed, the title
/// of the item and the text of the error.
pub open spec fn dropped_post(feed: Seq<char>, post: Seq<char>, error: ParserErrorView) -> Seq<
    char,
> {
    "\""@ + feed + "\"'s post titled \""@ + post + "\" errored with '"@ + error.message() + "'"@
}

/// The warning for an item that is dropped, see [`dropped_post`].
pub fn post_warning(feed: &str, post: &str, error: &ParserError) -> (warning: String)
    ensures
        warning@ == dropped_post(feed@, post@, error@),
{
    let cause = error.to_string();
    String::from_str("\"").concat(feed).concat("\"'s post titled \"").concat(post).concat(
        "\" errored with '",
    ).concat(cause.as_str()).concat("'")
}

/// The posts among the outcomes of converting the items of a feed one by one:
/// every post that could be made, in the order of the items. An item that
/// failed leaves no trace.
pub open spec fn kept_posts(converted: Seq<Result<PostView, ParserErrorView>>) -> Seq<PostView>
    decreases converted.len(),
{
    if converted.len() == 0 {
        Seq::empty()
    } else {
        let before = kept_posts(converted.drop_last());
        match converted.last() {
            Ok(post) => before.push(post),
            Err(_) => before,
        }
    }
}

/// Keeps the posts among the outcomes of converting the items of a feed.
pub fn keep_posts(converted: Vec<Result<Post, ParserError>>) -> (posts: Vec<Post>)
    ensures
        crate::blog::post_views(posts@) == kept_posts(converted@.map_values(|r| outcome(r))),
{
    let ghost all = converted@.map_values(|r: Result<Post, ParserError>| outcome(r));
    let mut posts: Vec<Post> = Vec::new();
    for result in it: converted
        invariant
            it.seq().map_values(|r: Result<Post, ParserError>| outcome(r)) == all,
            crate::blog::post_views(posts@) == kept_posts(all.take(it.index())),
    {
        proof {
            assert(all.take(it.index() + 1).drop_last() == all.take(it.index()));
            assert(all.take(it.index() + 1).last() == outcome(result));
        }
        match result {
            Ok(post) => {
                proof {
                    assert(crate::blog::post_views(posts@.push(post))
                        == crate::blog::post_views(posts@).push(post@));
                }
                posts.push(post);
            },
            Err(_) => {},
        }
    }
    proof {
        assert(all.take(all.len() as int) == all);
    }
    posts
}

/// An item that failed leaves no trace: without its outcome the posts are
/// the same.
pub proof fn failure_leaves_no_post(converted: Seq<Result<PostView, ParserErrorView>>, k: int)
    requires
        0 <= k < converted.len(),
        converted[k] is Err,
    ensures
        kept_posts(converted.remove(k)) == kept_posts(converted),
    decreases converted.len(),
{
    if k == converted.len() - 1 {
        assert(converted.remove(k) == converted.drop_last());
    } else {
        failure_leaves_no_post(converted.drop_last(), k);
        assert(converted.remove(k).drop_last() == converted.drop_last().remove(k));
        assert(converted.remove(k).last() == converted.last());
    }
}

/// Every post that is kept is the outcome of an item, and the posts stand in
/// the order of their items: there is a rising list of places, one for each
/// post, at which the outcome is that post.
pub proof fn kept_posts_origin(converted: Seq<Result<PostView, ParserErrorView>>) -> (places: Seq<
    int,
>)
    ensures
        places.len() == kept_posts(converted).len(),
        forall|i: int|
            0 <= i < places.len() ==> 0 <= #[trigger] places[i] < converted.len() && converted[places[i]]
                == Ok::<PostView, ParserErrorView>(kept_posts(converted)[i]),
        forall|i: int, j: int| 0 <= i < j < places.len() ==> places[i] < places[j],
    decreases converted.len(),
{
    if converted.len() == 0 {
        Seq::empty()
    } else {
        let before = kept_posts_origin(converted.drop_last());
        match converted.last() {
            Ok(post) => before.push(converted.len() - 1),
            Err(_) => before,
        }
    }
}

/// Every item that converts leaves its post: the number of posts is the
/// number of outcomes that are posts, so none is lost and none is made up.
pub proof fn kept_posts_count(converted: Seq<Result<PostView, ParserErrorView>>)
    ensures
        kept_posts(converted).len() == converted.filter(
            |r: Result<PostView, ParserErrorView>| r is Ok,
        ).len(),
    decreases converted.len(),
{
    reveal(Seq::filter);
    if converted.len() > 0 {
        kept_posts_count(converted.drop_last());
    }
}

} // verus!
