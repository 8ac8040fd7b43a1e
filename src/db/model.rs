//! The rows of the link store.
use vstd::prelude::*;

verus! {

/// A stored link, with the id the store assigned it.
#[derive(Debug, Clone)]
pub struct Link {
    pub id: i32,
    pub link: String,
    pub title: String,
}

/// A link to insert; the store assigns its id.
#[derive(Debug, Clone, Copy)]
pub struct NewLink<'a> {
    pub link: &'a str,
    pub title: &'a str,
}

} // verus!
