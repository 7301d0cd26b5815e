//! Terminal classification of one crawl target.

use vstd::prelude::*;

verus! {

/// How the processing of one crawl target ended.
#[derive(Clone, Copy, Debug, PartialEq, Eq, Structural)]
pub enum DownloadOutcome {
    /// The resource was fetched and written to its destination file.
    Success,
    /// Every permitted attempt against the resource URL failed.
    RetriesExhausted,
    /// The detail page could not be fetched.
    PageUnreachable,
    /// The detail page holds no link to a resource.
    ResourceNotFound,
    /// The destination file could not be created or written.
    FilesystemError,
}

} // verus!
