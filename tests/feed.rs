use yuribot::reddit_api::{
    check_status, feed_uri, FeedPaginator, Link, Listing, MaxTime, RedditError, Sort, Type,
    MAX_PAGE_SIZE,
};

fn post(i: usize) -> Type {
    Type::Link(Link { title: format!("title {}", i), url: format!("https://img.example/{}.png", i) })
}

fn page(first: usize, count: usize, after: Option<&str>) -> Type {
    Type::Listing(Listing {
        children: (first..first + count).map(post).collect(),
        after: after.map(|a| a.to_string()),
    })
}

/// Runs a paginator against a feed of `total` posts that serves pages as asked.
fn run_feed(total: usize, target: usize) -> (Vec<usize>, Result<Vec<Link>, RedditError>) {
    let mut p = FeedPaginator::new("wholesomeyuri".to_string(), Sort::TOP, MaxTime::ALL, target);
    let mut served = 0;
    let mut limits = Vec::new();
    while let Some(req) = p.next_request() {
        let req = req.unwrap();
        limits.push(req.limit);
        let count = req.limit.min(total - served);
        let after = if served + count < total { Some("t3_next") } else { None };
        p.on_response(Ok(page(served, count, after)));
        served += count;
    }
    (limits, p.finish())
}

#[test]
fn pagination_two_requests_for_26_of_30() {
    let (limits, posts) = run_feed(30, 26);
    assert_eq!(limits, vec![25, 1]);
    let posts = posts.unwrap();
    assert_eq!(posts.len(), 26);
    assert_eq!(posts[0].title, "title 0");
    assert_eq!(posts[25].title, "title 25");
}

#[test]
fn pagination_stops_when_feed_runs_out() {
    let (limits, posts) = run_feed(10, 26);
    assert_eq!(limits, vec![25]);
    assert_eq!(posts.unwrap().len(), 10);
}

#[test]
fn page_size_never_exceeds_maximum() {
    for target in [0usize, 1, 24, 25, 26, 49, 50, 51, 200, 1000] {
        let (limits, posts) = run_feed(10_000, target);
        assert!(limits.iter().all(|&l| 0 < l && l <= MAX_PAGE_SIZE));
        assert_eq!(limits.iter().sum::<usize>(), target);
        assert_eq!(posts.unwrap().len(), target);
    }
}

#[test]
fn zero_target_asks_for_nothing() {
    let p = FeedPaginator::new("wholesomeyuri".to_string(), Sort::HOT, MaxTime::DAY, 0);
    assert!(p.next_request().is_none());
    assert_eq!(p.finish().unwrap().len(), 0);
}

#[test]
fn request_uri_carries_query_and_cursor() {
    let mut p = FeedPaginator::new("wholesomeyuri".to_string(), Sort::TOP, MaxTime::WEEK, 30);
    let first = p.next_request().unwrap().unwrap();
    assert_eq!(first.uri, "https://www.reddit.com/r/wholesomeyuri/top.json?limit=25&after=&t=week");
    p.on_response(Ok(page(0, 25, Some("t3_abc"))));
    let second = p.next_request().unwrap().unwrap();
    assert_eq!(second.limit, 5);
    assert_eq!(second.uri, "https://www.reddit.com/r/wholesomeyuri/top.json?limit=5&after=t3_abc&t=week");
}

#[test]
fn nested_listing_fails_whole_page() {
    let mut p = FeedPaginator::new("wholesomeyuri".to_string(), Sort::NEW, MaxTime::ALL, 50);
    p.on_response(Ok(page(0, 25, Some("t3_a"))));
    let bad = Type::Listing(Listing {
        children: vec![post(25), page(26, 1, None)],
        after: Some("t3_b".to_string()),
    });
    p.on_response(Ok(bad));
    assert!(p.next_request().is_none());
    assert_eq!(p.finish().unwrap_err(), RedditError::UnexpectedResponse);
}

#[test]
fn item_instead_of_listing_is_unexpected() {
    let mut p = FeedPaginator::new("wholesomeyuri".to_string(), Sort::NEW, MaxTime::ALL, 5);
    p.on_response(Ok(post(0)));
    assert_eq!(p.finish().unwrap_err(), RedditError::UnexpectedResponse);
}

#[test]
fn fetch_error_aborts_without_partial_list() {
    let mut p = FeedPaginator::new("wholesomeyuri".to_string(), Sort::NEW, MaxTime::ALL, 60);
    p.on_response(Ok(page(0, 25, Some("t3_a"))));
    p.on_response(Err(RedditError::Timeout));
    assert!(p.next_request().is_none());
    assert_eq!(p.finish().unwrap_err(), RedditError::Timeout);
}

#[test]
fn unparsable_subreddit_is_a_parsing_error() {
    let p = FeedPaginator::new("bad name".to_string(), Sort::NEW, MaxTime::ALL, 5);
    assert_eq!(p.next_request().unwrap().unwrap_err(), RedditError::ParsingError);
    assert_eq!(feed_uri("bad name", Sort::NEW, MaxTime::ALL, 5, ""), Err(RedditError::ParsingError));
}

#[test]
fn feed_uri_formats_limit_in_decimal() {
    let uri = feed_uri("pics", Sort::CONTROVERSIAL, MaxTime::YEAR, 1234, "t3_z").unwrap();
    assert_eq!(uri, "https://www.reddit.com/r/pics/controversial.json?limit=1234&after=t3_z&t=year");
}

#[test]
fn status_outside_2xx_is_api_error() {
    assert_eq!(check_status(200), Ok(()));
    assert_eq!(check_status(299), Ok(()));
    assert_eq!(check_status(404), Err(RedditError::ApiError { error_code: 404 }));
    assert_eq!(check_status(503), Err(RedditError::ApiError { error_code: 503 }));
    assert_eq!(check_status(199), Err(RedditError::ApiError { error_code: 199 }));
}

#[test]
fn sort_and_time_texts() {
    assert_eq!(Sort::NEW.as_str(), "/new");
    assert_eq!(Sort::BEST.as_str(), "/best");
    assert_eq!(Sort::TOP.as_str(), "/top");
    assert_eq!(Sort::CONTROVERSIAL.as_str(), "/controversial");
    assert_eq!(Sort::HOT.as_str(), "/hot");
    assert_eq!(MaxTime::ALL.as_str(), "all");
    assert_eq!(MaxTime::YEAR.as_str(), "year");
    assert_eq!(MaxTime::MONTH.as_str(), "month");
    assert_eq!(MaxTime::WEEK.as_str(), "week");
    assert_eq!(MaxTime::DAY.as_str(), "day");
}
