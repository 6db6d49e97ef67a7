//! The site's configuration, as far as responses depend on it.

use vstd::prelude::*;
use vstd::string::StringExecFns;

verus! {

/// Where the site is served and how.
#[derive(Debug, PartialEq, Eq)]
pub struct SiteConfig {
    /// What stands before every path in a link, such as
    /// `http://localhost:8000`; empty for links relative to the site.
    pub base_url: String,
    /// Whether the site is served over TLS.
    pub secure: bool,
}

impl SiteConfig {
    /// The link to a path of the site: the base URL, then the path.
    pub open spec fn link(&self, path: Seq<char>) -> Seq<char> {
        self.base_url@ + path
    }

    pub fn new(base_url: &str, secure: bool) -> (r: SiteConfig)
        ensures
            r.base_url@ == base_url@,
            r.secure == secure,
    {
        SiteConfig { base_url: base_url.to_owned(), secure }
    }

    /// Builds the link to a path of the site.
    pub fn url(&self, path: &str) -> (r: String)
        ensures
            r@ == self.link(path@),
    {
        self.base_url.clone().concat(path)
    }
}

} // verus!
