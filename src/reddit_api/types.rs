//! The shapes of feed responses, and the query options of a feed request.
use vstd::prelude::*;

verus! {

/// A response body: a single post, or a listing of entries.
#[derive(Debug)]
pub enum Type {
    Link(Link),
    Listing(Listing),
}

/// One page of a feed: its entries and the cursor of the next page.
#[derive(Debug)]
pub struct Listing {
    pub children: Vec<Type>,
    pub after: Option<String>,
}

/// A post of the feed.
#[derive(Debug)]
pub struct Link {
    pub title: String,
    pub url: String,
}

/// The sort order of a feed.
#[allow(non_camel_case_types)]
#[derive(Debug, Clone, Copy, PartialEq, Eq)]
pub enum Sort {
    NEW,
    BEST,
    TOP,
    CONTROVERSIAL,
    HOT,
}

/// The path suffix that selects a sort order.
pub open spec fn sort_text(s: Sort) -> Seq<char> {
    match s {
        Sort::NEW => "/new"@,
        Sort::BEST => "/best"@,
        Sort::TOP => "/top"@,
        Sort::CONTROVERSIAL => "/controversial"@,
        Sort::HOT => "/hot"@,
    }
}

impl Sort {
    pub fn as_str(&self) -> (r: &'static str)
        ensures
            r@ == sort_text(*self),
    {
        match self {
            Sort::NEW => "/new",
            Sort::BEST => "/best",
            Sort::TOP => "/top",
            Sort::CONTROVERSIAL => "/controversial",
            Sort::HOT => "/hot",
        }
    }
}

/// How far back a feed reaches.
#[allow(non_camel_case_types)]
#[derive(Debug, Clone, Copy, PartialEq, Eq)]
pub enum MaxTime {
    ALL,
    YEAR,
    MONTH,
    WEEK,
    DAY,
}

/// The query value that selects a time window.
pub open spec fn max_time_text(t: MaxTime) -> Seq<char> {
    match t {
        MaxTime::ALL => "all"@,
        MaxTime::YEAR => "year"@,
        MaxTime::MONTH => "month"@,
        MaxTime::WEEK => "week"@,
        MaxTime::DAY => "day"@,
    }
}

impl MaxTime {
    pub fn as_str(&self) -> (r: &'static str)
        ensures
            r@ == max_time_text(*self),
    {
        match self {
            MaxTime::ALL => "all",
            MaxTime::YEAR => "year",
            MaxTime::MONTH => "month",
            MaxTime::WEEK => "week",
            MaxTime::DAY => "day",
        }
    }
}

} // verus!
