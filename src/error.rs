//! The ways in which the library's operations fail.
use vstd::prelude::*;

verus! {

/// A failure to obtain a usable search result, or to select from one.
#[derive(Clone, Copy, Debug, PartialEq, Eq, Structural)]
pub enum CatalogError {
    /// The catalog could not be reached (name resolution, connection, timeout).
    Connectivity,
    /// The response body does not have the shape of a search result.
    Decode,
    /// The response is well formed but holds no item.
    NoResults,
    /// An item holds no version, or a version holds no file.
    EmptyCollection,
}

/// A failure while storing a remote artifact on disk.
#[derive(Clone, Copy, Debug, PartialEq, Eq, Structural)]
pub enum DownloadError {
    /// The destination file could not be created.
    FileCreate,
    /// The response could not be obtained.
    Fetch,
    /// Reading the response body failed part way.
    Stream,
    /// Writing a chunk to the destination file failed.
    Write,
    /// A partial destination file could not be removed.
    Cleanup,
}

} // verus!
