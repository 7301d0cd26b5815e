//! Resource resolution: from a detail page to the one resource it stands
//! for, and to the name of the file that will hold it.

use crate::extract::{extract_first, first_extracted};
use crate::site::{FILE_PREFIX, LINK_ATTRIBUTE, ORIGIN, RESOURCE_SELECTOR, SCHEME};
use vstd::prelude::*;
use vstd::string::*;

verus! {

/// The failure of a page fetch. The transport's reasons are not told apart.
#[derive(Clone, Copy, Debug, PartialEq, Eq, Structural)]
pub struct FetchError;

/// Why a detail page gave no resource.
#[derive(Clone, Copy, Debug, PartialEq, Eq, Structural)]
pub enum ResolveError {
    /// The detail page could not be fetched.
    PageUnreachable,
    /// The detail page was fetched and holds no link to a resource.
    ResourceNotFound,
}

/// A resource ready to be fetched, and the name of its destination file.
#[derive(Debug)]
pub struct ResolvedResource {
    /// The absolute URL of the resource.
    pub url: String,
    /// The name of the destination file, relative to the destination directory.
    pub file_name: String,
}

/// The mathematical content of a [`ResolvedResource`].
pub struct ResourceModel {
    pub url: Seq<char>,
    pub file_name: Seq<char>,
}

impl View for ResolvedResource {
    type V = ResourceModel;

    open spec fn view(&self) -> ResourceModel {
        ResourceModel { url: self.url@, file_name: self.file_name@ }
    }
}

/// `text` without `prefix` at its start; `text` itself where it does not
/// start with `prefix`.
pub open spec fn strip_prefix(text: Seq<char>, prefix: Seq<char>) -> Seq<char> {
    if prefix.is_prefix_of(text) {
        text.skip(prefix.len() as int)
    } else {
        text
    }
}

/// The absolute URL of the detail page at `path`.
pub open spec fn page_url(path: Seq<char>) -> Seq<char> {
    ORIGIN@ + path
}

/// The name of the destination file for the detail page at `path`.
pub open spec fn file_name(path: Seq<char>) -> Seq<char> {
    strip_prefix(path, FILE_PREFIX@)
}

/// The body that a fetch brought, if it brought one.
pub open spec fn fetched_body(page: Result<String, FetchError>) -> Option<Seq<char>> {
    match page {
        Ok(body) => Some(body@),
        Err(_) => None,
    }
}

/// The resource that the detail page at `path` stands for when its resource
/// anchor points to `link`: the link with the scheme before it, and the
/// file name that the path gives.
pub open spec fn resource_of(path: Seq<char>, link: Seq<char>) -> ResourceModel {
    ResourceModel { url: SCHEME@ + link, file_name: file_name(path) }
}

/// What resolving the detail page at `path` gives, for what the fetch of
/// that page brought.
pub open spec fn resolution(path: Seq<char>, page: Option<Seq<char>>) -> Result<
    ResourceModel,
    ResolveError,
> {
    match page {
        None => Err(ResolveError::PageUnreachable),
        Some(body) => match first_extracted(body, RESOURCE_SELECTOR@, LINK_ATTRIBUTE@) {
            None => Err(ResolveError::ResourceNotFound),
            Some(link) => Ok(resource_of(path, link)),
        },
    }
}

/// Whether `text` starts with `prefix`.
pub fn starts_with(text: &str, prefix: &str) -> (yes: bool)
    ensures
        yes == prefix@.is_prefix_of(text@),
{
    let n = prefix.unicode_len();
    if text.unicode_len() < n {
        return false;
    }
    let mut i: usize = 0;
    while i < n
        invariant
            i <= n,
            n == prefix@.len(),
            n <= text@.len(),
            forall|j: int| 0 <= j < i ==> text@[j] == prefix@[j],
        decreases n - i,
    {
        if text.get_char(i) != prefix.get_char(i) {
            assert(prefix@[i as int] != text@.subrange(0, n as int)[i as int]);
            return false;
        }
        i = i + 1;
    }
    assert(prefix@ =~= text@.subrange(0, n as int));
    true
}

/// The absolute URL of the detail page at `path`: the origin, then the path.
pub fn detail_page_url(path: &str) -> (url: String)
    ensures
        url@ == page_url(path@),
{
    String::from_str(ORIGIN).concat(path)
}

/// The name of the destination file for the detail page at `path`: the path
/// without the namespace prefix at its start.
pub fn file_name_for(path: &str) -> (name: String)
    ensures
        name@ == file_name(path@),
{
    if starts_with(path, FILE_PREFIX) {
        let from = FILE_PREFIX.unicode_len();
        let to = path.unicode_len();
        String::from_str(path.substring_char(from, to))
    } else {
        String::from_str(path)
    }
}

/// The resource that the detail page at `path` stands for when its resource
/// anchor points to `link`.
pub fn resource_for(path: &str, link: &str) -> (resource: ResolvedResource)
    ensures
        resource@ == resource_of(path@, link@),
{
    ResolvedResource { url: String::from_str(SCHEME).concat(link), file_name: file_name_for(path) }
}

/// Resolves the detail page at `path` from what the fetch of that page
/// brought: the first link that the resource selector finds in the body,
/// made absolute, and the destination file name.
pub fn resolve_page(path: &str, page: Result<String, FetchError>) -> (resolved: Result<
    ResolvedResource,
    ResolveError,
>)
    ensures
        match resolution(path@, fetched_body(page)) {
            Ok(model) => resolved matches Ok(resource) && resource@ == model,
            Err(error) => resolved matches Err(e) && e == error,
        },
{
    match page {
        Err(_) => Err(ResolveError::PageUnreachable),
        Ok(body) => match extract_first(body.as_str(), RESOURCE_SELECTOR, LINK_ATTRIBUTE) {
            Err(_) => Err(ResolveError::ResourceNotFound),
            Ok(link) => Ok(resource_for(path, link.as_str())),
        },
    }
}

/// Two paths that both carry the namespace prefix and differ get different
/// file names.
pub proof fn lemma_file_name_injective(a: Seq<char>, b: Seq<char>)
    requires
        FILE_PREFIX@.is_prefix_of(a),
        FILE_PREFIX@.is_prefix_of(b),
        file_name(a) == file_name(b),
    ensures
        a == b,
{
    let n = FILE_PREFIX@.len() as int;
    assert(a =~= a.subrange(0, n) + a.skip(n));
    assert(b =~= b.subrange(0, n) + b.skip(n));
}

} // verus!
