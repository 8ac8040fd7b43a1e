//! Failures of a feed fetch.
use vstd::prelude::*;

verus! {

/// Why a feed fetch or a paginated collection failed.
#[derive(Debug, PartialEq, Eq)]
pub enum RedditError {
    /// The transfer failed.
    NetworkError,
    /// The call exceeded its deadline.
    Timeout,
    /// Reading the body failed.
    IoError,
    /// The request URI or the response body could not be parsed.
    ParsingError,
    /// The feed answered with a status outside 2xx.
    ApiError { error_code: u16 },
    /// Well-formed data of the wrong shape.
    UnexpectedResponse,
}

} // verus!
