//! Errors reported by the library.
use vstd::prelude::*;

verus! {

/// What can go wrong while building a request or walking a collection.
#[derive(Debug, Clone)]
pub enum Error {
    /// A URL could not be parsed.
    InvalidUrl,
    /// The API answered with something other than what was expected.
    ApiError(String),
    /// The transport failed, or the API answered with a non-success status.
    Http(String),
    /// A response body could not be decoded into the expected shape.
    DecodeError(String),
    /// The track is not available for streaming.
    TrackNotStreamable,
    /// The track is not available for download.
    TrackNotDownloadable,
    /// The text does not name a track filter.
    InvalidFilter(String),
}

} // verus!
