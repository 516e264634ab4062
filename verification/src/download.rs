//! The last step of a run: of the blogs that were fetched and parsed, keep
//! what was published within the recency window.

use crate::blog::{blog_views, post_views, Blog, BlogView, Post, PostView};
use crate::time::{now, recent, within_n_days_at, UtcInstant};
use vstd::prelude::*;

verus! {

/// The number of feeds that are fetched at the same time.
pub const CONCURRENT_REQUESTS: usize = 10;

/// The test that a post is within `n` days of `now`.
pub open spec fn is_recent_post(now: UtcInstant, n: int) -> spec_fn(PostView) -> bool {
    |post: PostView| recent(now, n, post.pub_date)
}

/// The posts among `posts` that are within `n` days of `now`, in their order.
pub open spec fn recent_posts(now: UtcInstant, n: int, posts: Seq<PostView>) -> Seq<PostView> {
    posts.filter(is_recent_post(now, n))
}

/// What is kept of a blog: nothing unless its own date is within `n` days of
/// `now`; then its recent posts, and nothing if there is none.
pub open spec fn retained(now: UtcInstant, n: int, blog: BlogView) -> Option<BlogView> {
    if !recent(now, n, blog.most_recent_pub_date) {
        None
    } else if recent_posts(now, n, blog.posts).len() == 0 {
        None
    } else {
        Some(
            BlogView {
                title: blog.title,
                most_recent_pub_date: blog.most_recent_pub_date,
                posts: recent_posts(now, n, blog.posts),
            },
        )
    }
}

/// What is kept of the outcome of fetching and parsing one feed.
pub open spec fn retained_content(now: UtcInstant, n: int) -> spec_fn(Option<BlogView>) -> Option<
    BlogView,
> {
    |content: Option<BlogView>|
        match content {
            Some(blog) => retained(now, n, blog),
            None => None,
        }
}

/// The blogs of a run: what is kept of each feed that was fetched and parsed,
/// in the order of `contents`.
pub open spec fn recent_blogs(now: UtcInstant, n: int, contents: Seq<Option<BlogView>>) -> Seq<
    BlogView,
> {
    contents.filter_map(retained_content(now, n))
}

/// The outcomes of fetching and parsing the feeds, as mathematical values.
pub open spec fn content_views(contents: Seq<Option<Blog>>) -> Seq<Option<BlogView>> {
    contents.map_values(
        |content: Option<Blog>|
            match content {
                Some(blog) => Some(blog@),
                None => None,
            },
    )
}

/// Keeps the posts that are within `days` days of `now`.
pub fn keep_recent_posts(posts: Vec<Post>, days: i64, now: &UtcInstant) -> (kept: Vec<Post>)
    ensures
        post_views(kept@) == recent_posts(*now, days as int, post_views(posts@)),
{
    let ghost views = post_views(posts@);
    let ghost test = is_recent_post(*now, days as int);
    let mut kept: Vec<Post> = Vec::new();
    proof {
        reveal(Seq::filter);
        assert(views.take(0).filter(test) == Seq::<PostView>::empty());
    }
    for post in it: posts
        invariant
            it.seq() == posts@,
            views == post_views(posts@),
            test == is_recent_post(*now, days as int),
            post_views(kept@) == views.take(it.index()).filter(test),
    {
        proof {
            assert(views.take(it.index() + 1) == views.take(it.index()).push(post@));
            views.take(it.index()).lemma_filter_push(post@, test);
        }
        if within_n_days_at(now, days, &post.pub_date) {
            proof {
                assert(post_views(kept@.push(post)) == post_views(kept@).push(post@));
            }
            kept.push(post);
        }
    }
    proof {
        assert(views.take(views.len() as int) == views);
    }
    kept
}

/// Keeps of a blog what is within `days` days of `now`, see [`retained`].
pub fn retain_recent(blog: Blog, days: i64, now: &UtcInstant) -> (kept: Option<Blog>)
    ensures
        match kept {
            Some(b) => retained(*now, days as int, blog@) == Some(b@),
            None => retained(*now, days as int, blog@) is None,
        },
{
    if !within_n_days_at(now, days, &blog.most_recent_pub_date) {
        return None;
    }
    let recent_posts = keep_recent_posts(blog.posts, days, now);
    if recent_posts.len() == 0 {
        None
    } else {
        Some(
            Blog {
                title: blog.title,
                most_recent_pub_date: blog.most_recent_pub_date,
                posts: recent_posts,
            },
        )
    }
}

/// Keeps of every feed that was fetched and parsed what is within `days` days
/// of `now`, see [`recent_blogs`].
pub fn filter_recent(contents: Vec<Option<Blog>>, days: i64, now: &UtcInstant) -> (blogs: Vec<Blog>)
    ensures
        blog_views(blogs@) == recent_blogs(*now, days as int, content_views(contents@)),
{
    let ghost views = content_views(contents@);
    let ghost keep = retained_content(*now, days as int);
    let mut blogs: Vec<Blog> = Vec::new();
    for content in it: contents
        invariant
            it.seq() == contents@,
            views == content_views(contents@),
            keep == retained_content(*now, days as int),
            blog_views(blogs@) == views.take(it.index()).filter_map(keep),
    {
        proof {
            views.lemma_filter_map_take_succ(keep, it.index());
        }
        match content {
            Some(blog) => match retain_recent(blog, days, now) {
                Some(kept) => {
                    proof {
                        assert(blog_views(blogs@.push(kept)) == blog_views(blogs@).push(kept@));
                    }
                    blogs.push(kept);
                },
                None => {},
            },
            None => {},
        }
    }
    proof {
        assert(views.take(views.len() as int) == views);
    }
    blogs
}

/// Converts what fetching and parsing the feeds gave into the blogs of the
/// run: a feed that failed leaves no blog, and of the others what is within
/// `days` days of the current date is kept. The clock is read once;
/// [`filter_recent`] decides.
pub fn download_blogs(days: i64, contents: Vec<Option<Blog>>) -> (blogs: Vec<Blog>)
    ensures
        exists|now: UtcInstant|
            blog_views(blogs@) == recent_blogs(now, days as int, content_views(contents@)),
{
    let current = now();
    filter_recent(contents, days, &current)
}

/// A blog that is kept is recent itself and holds its recent posts, of which
/// there is at least one, under its own title and date.
pub proof fn kept_blog_is_recent(now: UtcInstant, n: int, blog: BlogView)
    ensures
        retained(now, n, blog) matches Some(kept) ==> {
            &&& recent(now, n, blog.most_recent_pub_date)
            &&& kept.title == blog.title
            &&& kept.most_recent_pub_date == blog.most_recent_pub_date
            &&& kept.posts == recent_posts(now, n, blog.posts)
            &&& kept.posts.len() > 0
            &&& forall|i: int|
                0 <= i < kept.posts.len() ==> recent(now, n, (#[trigger] kept.posts[i]).pub_date)
                    && blog.posts.contains(kept.posts[i])
        },
{
    broadcast use vstd::seq_lib::group_filter_ensures;

    assert forall|i: int| 0 <= i < recent_posts(now, n, blog.posts).len() implies recent(
        now,
        n,
        (#[trigger] recent_posts(now, n, blog.posts)[i]).pub_date,
    ) && blog.posts.contains(recent_posts(now, n, blog.posts)[i]) by {
        assert(is_recent_post(now, n)(recent_posts(now, n, blog.posts)[i]));
        assert(recent_posts(now, n, blog.posts).contains(recent_posts(now, n, blog.posts)[i]));
        blog.posts.lemma_filter_contains_rev(
            is_recent_post(now, n),
            recent_posts(now, n, blog.posts)[i],
        );
    }
}

/// A blog of which no post is within the window is dropped, however recent
/// the blog itself is.
pub proof fn blog_without_recent_post_is_dropped(now: UtcInstant, n: int, blog: BlogView)
    requires
        forall|i: int| 0 <= i < blog.posts.len() ==> !recent(now, n, (#[trigger] blog.posts[i]).pub_date),
    ensures
        retained(now, n, blog) is None,
{
    assert forall|i: int| 0 <= i < blog.posts.len() implies !is_recent_post(now, n)(
        #[trigger] blog.posts[i],
    ) by {}
    blog.posts.lemma_all_neg_filter_empty(is_recent_post(now, n));
}

/// A blog that is not within the window is dropped, whatever its posts are.
pub proof fn stale_blog_is_dropped(now: UtcInstant, n: int, blog: BlogView)
    requires
        !recent(now, n, blog.most_recent_pub_date),
    ensures
        retained(now, n, blog) is None,
{
}

/// Every blog of a run is what is kept of one of the feeds: nothing is made
/// up, and a feed that failed leaves nothing.
pub proof fn recent_blogs_are_retained(now: UtcInstant, n: int, contents: Seq<Option<BlogView>>)
    ensures
        forall|i: int|
            0 <= i < recent_blogs(now, n, contents).len() ==> exists|j: int|
                0 <= j < contents.len() && (#[trigger] contents[j]) is Some && retained(
                    now,
                    n,
                    contents[j]->0,
                ) == Some(#[trigger] recent_blogs(now, n, contents)[i]),
    decreases contents.len(),
{
    let keep = retained_content(now, n);
    if contents.len() > 0 {
        let before = contents.drop_last();
        recent_blogs_are_retained(now, n, before);
        assert forall|i: int| 0 <= i < recent_blogs(now, n, contents).len() implies exists|j: int|
            0 <= j < contents.len() && (#[trigger] contents[j]) is Some && retained(
                now,
                n,
                contents[j]->0,
            ) == Some(#[trigger] recent_blogs(now, n, contents)[i]) by {
            if i < recent_blogs(now, n, before).len() {
                assert(recent_blogs(now, n, contents)[i] == recent_blogs(now, n, before)[i]);
                let j = choose|j: int|
                    0 <= j < before.len() && (#[trigger] before[j]) is Some && retained(
                        now,
                        n,
                        before[j]->0,
                    ) == Some(recent_blogs(now, n, before)[i]);
                assert(contents[j] == before[j]);
            } else {
                assert(keep(contents.last()) == Some(recent_blogs(now, n, contents)[i]));
                assert(contents[contents.len() - 1] == contents.last());
            }
        }
    }
}

/// No blog of a run is empty: each holds a post, and all its posts and the
/// blog itself are within the window.
pub proof fn no_blog_is_empty(now: UtcInstant, n: int, contents: Seq<Option<BlogView>>)
    ensures
        forall|i: int|
            0 <= i < recent_blogs(now, n, contents).len() ==> {
                let blog = #[trigger] recent_blogs(now, n, contents)[i];
                &&& blog.posts.len() > 0
                &&& recent(now, n, blog.most_recent_pub_date)
                &&& forall|k: int|
                    0 <= k < blog.posts.len() ==> recent(now, n, (#[trigger] blog.posts[k]).pub_date)
            },
{
    recent_blogs_are_retained(now, n, contents);
    assert forall|i: int| 0 <= i < recent_blogs(now, n, contents).len() implies {
        let blog = #[trigger] recent_blogs(now, n, contents)[i];
        &&& blog.posts.len() > 0
        &&& recent(now, n, blog.most_recent_pub_date)
        &&& forall|k: int|
            0 <= k < blog.posts.len() ==> recent(now, n, (#[trigger] blog.posts[k]).pub_date)
    } by {
        let j = choose|j: int|
            0 <= j < contents.len() && (#[trigger] contents[j]) is Some && retained(
                now,
                n,
                contents[j]->0,
            ) == Some(recent_blogs(now, n, contents)[i]);
        kept_blog_is_recent(now, n, contents[j]->0);
    }
}

} // verus!
