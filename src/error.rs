//! Errors surfaced by the listing engines.
use vstd::prelude::*;

verus! {

/// Why a page could not be had from the service.
#[derive(Clone, Debug, PartialEq, Eq)]
pub enum FetchError {
    /// The request could not be carried out: connectivity, timeout, or an
    /// error status from the service.
    Transport(String),
    /// The response did not hold a well-formed page.
    Decode(String),
}

/// Why one call of `CursorIter::produce_next` did not produce an item.
#[derive(Clone, Debug, PartialEq, Eq)]
pub enum ListingError {
    /// The page source failed; its error is passed on unchanged.
    Fetch(FetchError),
    /// Too many pages in a row came back empty while their cursor kept the
    /// listing open. The listing is left at the last cursor received, so
    /// asking again continues from there.
    TooManyEmptyPages,
}

/// A configuration change that is no longer allowed.
#[derive(Clone, Copy, Debug, PartialEq, Eq, Structural)]
pub enum ConfigError {
    /// The page size cannot change once the first page has been fetched.
    AlreadyStarted,
}

} // verus!
