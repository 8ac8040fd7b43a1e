//! Reading a cursor-paginated feed: request URIs, response shapes, and the
//! paginator that decides which page to ask for next.
use vstd::prelude::*;

pub mod errors;
pub mod types;

pub use errors::RedditError;
pub use types::{max_time_text, sort_text, Link, Listing, MaxTime, Sort, Type};

use crate::text::{decimal, push_decimal};
use crate::uri::{parse_uri, uri_parse};
use vstd::string::StringExecFns;
use vstd::utf8::encode_utf8;

verus! {

/// What a pool needs to open feed clients: the user agent they send and the
/// deadline of each call.
#[derive(Debug)]
pub struct RedditManager {
    pub user_agent: String,
    pub timeout: std::time::Duration,
}

/// The most entries the feed hands out per page.
pub const MAX_PAGE_SIZE: usize = 25;

/// Where feed requests go.
pub const FEED_ORIGIN: &'static str = "https://www.reddit.com";

/// What a fetch of a page yields: `Ok` when its status is in 2xx, else the
/// status as an `ApiError`.
pub fn check_status(status: u16) -> (r: Result<(), RedditError>)
    ensures
        r is Ok <==> 200 <= status < 300,
        r is Err ==> r == Err::<(), RedditError>(RedditError::ApiError { error_code: status }),
{
    if 200 <= status && status < 300 {
        Ok(())
    } else {
        Err(RedditError::ApiError { error_code: status })
    }
}

/// The page size asked for while `remaining` entries are still wanted.
pub open spec fn page_limit(remaining: nat) -> nat {
    if remaining > MAX_PAGE_SIZE {
        MAX_PAGE_SIZE as nat
    } else {
        remaining
    }
}

/// The text of the request for one page of `/r/<subreddit>`.
pub open spec fn feed_uri_text(
    subreddit: Seq<char>,
    sort: Sort,
    max_time: MaxTime,
    limit: nat,
    after: Seq<char>,
) -> Seq<char> {
    FEED_ORIGIN@ + "/r/"@ + subreddit + sort_text(sort) + ".json?limit="@ + decimal(limit)
        + "&after="@ + after + "&t="@ + max_time_text(max_time)
}

/// Builds the request URI for one page of `/r/<subreddit>` and checks it
/// with hyper's parser: `ParsingError` exactly where the parser refuses it.
pub fn feed_uri(subreddit: &str, sort: Sort, max_time: MaxTime, limit: usize, after: &str) -> (r:
    Result<String, RedditError>)
    ensures
        ({
            let text = feed_uri_text(subreddit@, sort, max_time, limit as nat, after@);
            match r {
                Ok(u) => u@ == text && uri_parse(encode_utf8(text)) is Some,
                Err(e) => e == RedditError::ParsingError && uri_parse(encode_utf8(text)) is None,
            }
        }),
{
    let mut u = String::new();
    u.append(FEED_ORIGIN);
    u.append("/r/");
    u.append(subreddit);
    u.append(sort.as_str());
    u.append(".json?limit=");
    push_decimal(&mut u, limit);
    u.append("&after=");
    u.append(after);
    u.append("&t=");
    u.append(max_time.as_str());
    let ghost text = feed_uri_text(subreddit@, sort, max_time, limit as nat, after@);
    assert(u@ =~= text);
    match parse_uri(u.as_str().as_bytes()) {
        Some(_) => Ok(u),
        None => Err(RedditError::ParsingError),
    }
}

/// Where a collection stands.
#[derive(Debug)]
pub enum FeedStatus {
    /// More pages may be asked for.
    Active,
    /// The feed signalled its end: no cursor came with the last page.
    Exhausted,
    /// A fetch failed; the collection yields this error and nothing else.
    Failed(RedditError),
}

/// One page request: its URI and the page size it asks for.
#[derive(Debug)]
pub struct FeedRequest {
    pub uri: String,
    pub limit: usize,
}

/// The state of a collection, as contracts speak of it.
pub struct FeedView {
    pub subreddit: Seq<char>,
    pub sort: Sort,
    pub max_time: MaxTime,
    pub remaining: nat,
    pub after: Seq<char>,
    pub posts: Seq<Link>,
    pub status: FeedStatus,
}

/// Every entry of a page is a post.
pub open spec fn all_links(children: Seq<Type>) -> bool {
    forall|i: int| 0 <= i < children.len() ==> (#[trigger] children[i]) is Link
}

/// The posts of a page whose entries are all posts.
pub open spec fn links_of(children: Seq<Type>) -> Seq<Link> {
    children.map_values(|t: Type| t->Link_0)
}

/// What one fetched page (or the failure to fetch it) does to a collection.
/// A page is taken whole or not at all; without a cursor it is the last one.
/// Each page counts as a full page against the wanted count.
pub open spec fn feed_step(s: FeedView, response: Result<Type, RedditError>) -> FeedView {
    if !(s.status is Active) {
        s
    } else {
        match response {
            Err(e) => FeedView { status: FeedStatus::Failed(e), ..s },
            Ok(Type::Link(_)) => FeedView {
                status: FeedStatus::Failed(RedditError::UnexpectedResponse),
                ..s
            },
            Ok(Type::Listing(l)) => {
                if !all_links(l.children@) {
                    FeedView { status: FeedStatus::Failed(RedditError::UnexpectedResponse), ..s }
                } else {
                    let posts = s.posts + links_of(l.children@);
                    match l.after {
                        None => FeedView { posts, status: FeedStatus::Exhausted, ..s },
                        Some(a) => FeedView {
                            posts,
                            after: a@,
                            remaining: if s.remaining > MAX_PAGE_SIZE {
                                (s.remaining - MAX_PAGE_SIZE) as nat
                            } else {
                                0
                            },
                            ..s
                        },
                    }
                }
            },
        }
    }
}

/// Collects up to a wanted number of posts from `/r/<subreddit>`, one page
/// at a time. The caller fetches each page that `next_request` names and
/// hands the outcome to `on_response`, until `next_request` gives `None`.
pub struct FeedPaginator {
    subreddit: String,
    sort: Sort,
    max_time: MaxTime,
    remaining: usize,
    after: String,
    posts: Vec<Link>,
    status: FeedStatus,
}

impl View for FeedPaginator {
    type V = FeedView;

    closed spec fn view(&self) -> FeedView {
        FeedView {
            subreddit: self.subreddit@,
            sort: self.sort,
            max_time: self.max_time,
            remaining: self.remaining as nat,
            after: self.after@,
            posts: self.posts@,
            status: self.status,
        }
    }
}

impl FeedPaginator {
    /// Starts a collection of `limit` posts, with an empty cursor.
    pub fn new(subreddit: String, sort: Sort, max_time: MaxTime, limit: usize) -> (r: Self)
        ensures
            r@ == (FeedView {
                subreddit: subreddit@,
                sort,
                max_time,
                remaining: limit as nat,
                after: Seq::empty(),
                posts: Seq::empty(),
                status: FeedStatus::Active,
            }),
    {
        FeedPaginator {
            subreddit,
            sort,
            max_time,
            remaining: limit,
            after: String::new(),
            posts: Vec::new(),
            status: FeedStatus::Active,
        }
    }

    /// The next page to fetch: `None` once the collection is over (enough
    /// pages asked for, the feed exhausted, or a failure). The page size is
    /// the smaller of the remaining count and `MAX_PAGE_SIZE`.
    pub fn next_request(&self) -> (r: Option<Result<FeedRequest, RedditError>>)
        ensures
            r is None <==> !(self@.status is Active) || self@.remaining == 0,
            r is Some ==> ({
                let limit = page_limit(self@.remaining);
                let text = feed_uri_text(
                    self@.subreddit,
                    self@.sort,
                    self@.max_time,
                    limit,
                    self@.after,
                );
                match r->Some_0 {
                    Ok(req) => req.limit == limit && req.uri@ == text && uri_parse(
                        encode_utf8(text),
                    ) is Some,
                    Err(e) => e == RedditError::ParsingError && uri_parse(encode_utf8(text)) is None,
                }
            }),
            r matches Some(Ok(req)) ==> 0 < req.limit <= MAX_PAGE_SIZE,
    {
        match self.status {
            FeedStatus::Active => {},
            _ => return None,
        }
        if self.remaining == 0 {
            return None;
        }
        let limit = if self.remaining > MAX_PAGE_SIZE {
            MAX_PAGE_SIZE
        } else {
            self.remaining
        };
        match feed_uri(self.subreddit.as_str(), self.sort, self.max_time, limit, self.after.as_str()) {
            Ok(uri) => Some(Ok(FeedRequest { uri, limit })),
            Err(e) => Some(Err(e)),
        }
    }

    /// Takes in the outcome of the fetch of the page last asked for.
    pub fn on_response(&mut self, response: Result<Type, RedditError>)
        ensures
            final(self)@ == feed_step(old(self)@, response),
    {
        match self.status {
            FeedStatus::Active => {},
            _ => return ,
        }
        match response {
            Err(e) => {
                self.status = FeedStatus::Failed(e);
            },
            Ok(Type::Link(_)) => {
                self.status = FeedStatus::Failed(RedditError::UnexpectedResponse);
            },
            Ok(Type::Listing(listing)) => {
                let Listing { children, after } = listing;
                let mut all = true;
                let mut i: usize = 0;
                while i < children.len()
                    invariant
                        i <= children@.len(),
                        all == forall|k: int| 0 <= k < i ==> (#[trigger] children@[k]) is Link,
                    decreases children@.len() - i,
                {
                    if !matches!(children[i], Type::Link(_)) {
                        all = false;
                    }
                    i += 1;
                }
                if !all {
                    self.status = FeedStatus::Failed(RedditError::UnexpectedResponse);
                    return ;
                }
                let ghost before = self.posts@;
                let ghost pre = self@;
                let ghost kids = children@;
                for child in it: children.into_iter()
                    invariant
                        it.seq() == kids,
                        all_links(kids),
                        self@ == (FeedView {
                            posts: before + links_of(kids.take(it.index() as int)),
                            ..pre
                        }),
                {
                    match child {
                        Type::Link(l) => self.posts.push(l),
                        Type::Listing(_) => {},
                    }
                    assert(kids.take(it.index() as int + 1) =~= kids.take(it.index() as int).push(
                        kids[it.index() as int],
                    ));
                    assert(links_of(kids.take(it.index() as int + 1)) =~= links_of(
                        kids.take(it.index() as int),
                    ).push(kids[it.index() as int]->Link_0));
                }
                assert(kids.take(kids.len() as int) =~= kids);
                match after {
                    None => {
                        self.status = FeedStatus::Exhausted;
                    },
                    Some(a) => {
                        self.after = a;
                        self.remaining = if self.remaining > MAX_PAGE_SIZE {
                            self.remaining - MAX_PAGE_SIZE
                        } else {
                            0
                        };
                    },
                }
            },
        }
    }

    /// The outcome of the collection: the error of a failed fetch, else every
    /// post collected, in the order the pages listed them.
    pub fn finish(self) -> (r: Result<Vec<Link>, RedditError>)
        ensures
            match self@.status {
                FeedStatus::Failed(e) => r == Err::<Vec<Link>, RedditError>(e),
                _ => r matches Ok(v) && v@ == self@.posts,
            },
    {
        match self.status {
            FeedStatus::Failed(e) => Err(e),
            _ => Ok(self.posts),
        }
    }
}

/// A collection fed the page outcomes `pages` in order, one per request,
/// until it asks for no more: its final state and the requests it made.
pub open spec fn run_feed(s: FeedView, pages: Seq<Result<Type, RedditError>>) -> (FeedView, nat)
    decreases pages.len(),
{
    if !(s.status is Active) || s.remaining == 0 || pages.len() == 0 {
        (s, 0)
    } else {
        let rest = run_feed(feed_step(s, pages[0]), pages.drop_first());
        (rest.0, rest.1 + 1)
    }
}

/// Pagination ends: whatever the feed answers, a collection that still wants
/// `remaining` posts makes at most `ceil(remaining / MAX_PAGE_SIZE)` more
/// requests, since each page counts as a full one.
pub proof fn lemma_request_bound(s: FeedView, pages: Seq<Result<Type, RedditError>>)
    ensures
        run_feed(s, pages).1 * MAX_PAGE_SIZE <= s.remaining + MAX_PAGE_SIZE - 1,
    decreases pages.len(),
{
    if s.status is Active && s.remaining > 0 && pages.len() > 0 {
        lemma_request_bound(feed_step(s, pages[0]), pages.drop_first());
    }
}

/// Exhaustion is no failure: a well-formed page without a cursor ends an
/// active collection with every post gathered so far and on that page, and
/// no further request.
pub proof fn lemma_exhaustion_keeps_posts(
    s: FeedView,
    children: Vec<Type>,
    later: Seq<Result<Type, RedditError>>,
)
    requires
        s.status is Active,
        all_links(children@),
    ensures
        ({
            let t = feed_step(s, Ok(Type::Listing(Listing { children, after: None })));
            &&& t.status is Exhausted
            &&& t.posts == s.posts + links_of(children@)
            &&& run_feed(t, later) == (t, 0nat)
        }),
{
}

} // verus!
