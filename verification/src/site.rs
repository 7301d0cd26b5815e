//! The scraping contract with the remote site: where pages live and how
//! links are found in them. Everything that breaks when the site changes its
//! page structure is here.

use vstd::prelude::*;

verus! {

/// The seed page.
pub const SEED_URL: &'static str = "https://en.wikipedia.org/wiki/Bird";

/// The origin that detail-page paths are relative to.
pub const ORIGIN: &'static str = "https://en.wikipedia.org";

/// The scheme that a protocol-relative resource link lacks.
pub const SCHEME: &'static str = "https:";

/// The namespace prefix that a detail-page path carries before the file name.
pub const FILE_PREFIX: &'static str = "/wiki/File:";

/// Picks, on the seed page, the links to detail pages.
pub const SEED_SELECTOR: &'static str = ".clade .clade-leaf .mw-file-description";

/// Picks, on a detail page, the anchor of the full resource.
pub const RESOURCE_SELECTOR: &'static str = ".fullImageLink a";

/// The attribute that holds a link's target.
pub const LINK_ATTRIBUTE: &'static str = "href";

/// How many detail pages a run visits unless told otherwise.
pub const DEFAULT_MAX_ITEMS: usize = 3;

/// Where a run puts its files unless told otherwise.
pub const DEFAULT_DIRECTORY: &'static str = "./static";

} // verus!
