//! What a run is configured with.

use vstd::prelude::*;

verus! {

/// The settings of one run.
#[derive(Debug)]
pub struct Args {
    /// URLs of the sitemaps whose pages are checked.
    pub sitemap: Vec<String>,
    /// URL that every result is posted to.
    pub notification_url: String,
    /// URL that a result with unreachable pages is posted to as well.
    pub critical_url: String,
    /// URLs of pages that are not probed.
    pub ignore: Option<Vec<String>>,
}

impl Args {
    /// The ignore list as a check takes it.
    pub fn urls_to_ignore(&self) -> (list: Option<&Vec<String>>)
        ensures
            match list {
                Some(urls) => self.ignore == Some(*urls),
                None => self.ignore is None,
            },
    {
        match &self.ignore {
            Some(urls) => Some(urls),
            None => None,
        }
    }
}

} // verus!
