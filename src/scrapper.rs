//! The ingestion path: which fetched posts go to the store.
use vstd::prelude::*;

use crate::db::model::NewLink;
use crate::reddit_api::types::Link;
use crate::text::{char_vec, ends_with_chars, has_suffix};

verus! {

/// The subreddit that posts are pulled from.
pub const SUBREDDIT: &'static str = "wholesomeyuri";

/// Posts pulled at each tick of the running scraper.
pub const SCRAPE_COUNT: usize = 3;

/// Seconds between two ticks of the running scraper.
pub const SCRAPE_INTERVAL_SECS: u64 = 1800;

/// Posts pulled by a seeding run when no count is given.
pub const DEFAULT_SEED_COUNT: usize = 200;

/// A URL that names a PNG or JPEG image by its extension.
pub open spec fn is_image(url: Seq<char>) -> bool {
    has_suffix(url, ".png"@) || has_suffix(url, ".jpg"@) || has_suffix(url, ".jpeg"@)
}

/// Whether `url` ends with `.png`, `.jpg` or `.jpeg`.
pub fn is_image_url(url: &str) -> (r: bool)
    ensures
        r == is_image(url@),
{
    let chars = char_vec(url);
    ends_with_chars(&chars, ".png") || ends_with_chars(&chars, ".jpg") || ends_with_chars(
        &chars,
        ".jpeg",
    )
}

/// The (url, title) of the image posts among `posts`, in order.
pub open spec fn image_posts(posts: Seq<Link>) -> Seq<(Seq<char>, Seq<char>)>
    decreases posts.len(),
{
    if posts.len() == 0 {
        Seq::empty()
    } else {
        let prev = image_posts(posts.drop_last());
        if is_image(posts.last().url@) {
            prev.push((posts.last().url@, posts.last().title@))
        } else {
            prev
        }
    }
}

/// The (url, title) of each link to insert.
pub open spec fn new_link_fields(links: Seq<NewLink>) -> Seq<(Seq<char>, Seq<char>)> {
    links.map_values(|l: NewLink| (l.link@, l.title@))
}

/// The batch to insert for the fetched `posts`: those that link an image,
/// in the order fetched.
pub fn new_links<'a>(posts: &'a Vec<Link>) -> (r: Vec<NewLink<'a>>)
    ensures
        new_link_fields(r@) == image_posts(posts@),
{
    let mut batch: Vec<NewLink<'a>> = Vec::new();
    let mut i: usize = 0;
    while i < posts.len()
        invariant
            i <= posts@.len(),
            new_link_fields(batch@) == image_posts(posts@.take(i as int)),
        decreases posts@.len() - i,
    {
        let post = &posts[i];
        assert(posts@.take(i as int + 1).drop_last() =~= posts@.take(i as int));
        if is_image_url(post.url.as_str()) {
            batch.push(NewLink { link: post.url.as_str(), title: post.title.as_str() });
        }
        i += 1;
        assert(new_link_fields(batch@) =~= image_posts(posts@.take(i as int)));
    }
    assert(posts@.take(i as int) =~= posts@);
    batch
}

} // verus!
