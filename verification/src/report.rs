//! The summary of one sitemap check.

use vstd::prelude::*;
use vstd::string::StringExecFns;

verus! {

/// Whether a sitemap was retrieved and parsed.
#[derive(Clone, Copy, Debug, PartialEq, Eq, Structural)]
pub enum SiteCheckStatus {
    /// The sitemap was fetched and parsed, and every page that is not ignored
    /// was probed. Pages that failed their probe do not change this status.
    Success,
    /// The sitemap itself could not be fetched.
    UnreachableSitemap,
    /// The sitemap was fetched, but its content is not well-formed XML.
    InvalidSitemap,
}

/// The mathematical content of a [`SiteCheckResult`].
pub struct SiteCheckResultView {
    pub status: SiteCheckStatus,
    pub sitemap_url: Seq<char>,
    pub page_total: Option<nat>,
    pub unreachable_total: Option<nat>,
    pub unreachable_pages: Option<Seq<char>>,
}

impl SiteCheckResultView {
    /// The three counts are present only on success; then the unreachable
    /// pages are no more than the pages, and their list is present exactly
    /// when there is at least one.
    pub open spec fn wf(self) -> bool {
        if self.status == SiteCheckStatus::Success {
            &&& self.page_total is Some
            &&& self.unreachable_total is Some
            &&& self.unreachable_total.unwrap() <= self.page_total.unwrap()
            &&& (self.unreachable_pages is Some <==> self.unreachable_total.unwrap() > 0)
        } else {
            &&& self.page_total is None
            &&& self.unreachable_total is None
            &&& self.unreachable_pages is None
        }
    }
}

/// What separates two URLs in the list of unreachable pages.
pub open spec fn separator() -> Seq<char> {
    seq![',', ' ']
}

/// The parts in order, with a separator between each two neighbours.
pub open spec fn joined(parts: Seq<Seq<char>>) -> Seq<char>
    decreases parts.len(),
{
    if parts.len() == 0 {
        Seq::empty()
    } else if parts.len() == 1 {
        parts[0]
    } else {
        joined(parts.drop_last()) + separator() + parts.last()
    }
}

/// The summary of a check that could not read its sitemap.
pub open spec fn failure_view(status: SiteCheckStatus, sitemap_url: Seq<char>) -> SiteCheckResultView {
    SiteCheckResultView {
        status,
        sitemap_url,
        page_total: None,
        unreachable_total: None,
        unreachable_pages: None,
    }
}

/// The summary of a check that probed its pages: `page_total` pages were
/// listed, and `unreachable` are those that failed their probe, in order.
pub open spec fn success_view(
    sitemap_url: Seq<char>,
    page_total: nat,
    unreachable: Seq<Seq<char>>,
) -> SiteCheckResultView {
    SiteCheckResultView {
        status: SiteCheckStatus::Success,
        sitemap_url,
        page_total: Some(page_total),
        unreachable_total: Some(unreachable.len()),
        unreachable_pages: if unreachable.len() == 0 {
            None
        } else {
            Some(joined(unreachable))
        },
    }
}

/// Joins URLs into one string, a comma and a space between each two.
pub fn join_urls(urls: &Vec<String>) -> (text: String)
    ensures
        text@ == joined(urls.deep_view()),
{
    let mut text = String::new();
    let mut i: usize = 0;
    while i < urls.len()
        invariant
            i <= urls.len(),
            text@ == joined(urls.deep_view().take(i as int)),
        decreases urls.len() - i,
    {
        proof {
            reveal_strlit(", ");
            let parts = urls.deep_view();
            assert(parts.take(i + 1).drop_last() =~= parts.take(i as int));
            assert(parts.take(i + 1).last() == urls[i as int]@);
            assert(", "@ =~= separator());
        }
        if i > 0 {
            text.append(", ");
        }
        text.append(urls[i].as_str());
        i = i + 1;
    }
    proof {
        assert(urls.deep_view().take(urls.len() as int) =~= urls.deep_view());
    }
    text
}

/// The result of checking every page that one sitemap lists.
#[derive(Debug)]
pub struct SiteCheckResult {
    status: SiteCheckStatus,
    sitemap_url: String,
    /// Number of pages that the sitemap lists.
    page_total: Option<usize>,
    /// Number of pages that could not be reached.
    unreachable_total: Option<usize>,
    /// The unreachable pages, joined by a comma and a space.
    unreachable_pages: Option<String>,
}

impl View for SiteCheckResult {
    type V = SiteCheckResultView;

    closed spec fn view(&self) -> SiteCheckResultView {
        SiteCheckResultView {
            status: self.status,
            sitemap_url: self.sitemap_url@,
            page_total: match self.page_total {
                Some(n) => Some(n as nat),
                None => None,
            },
            unreachable_total: match self.unreachable_total {
                Some(n) => Some(n as nat),
                None => None,
            },
            unreachable_pages: match self.unreachable_pages {
                Some(pages) => Some(pages@),
                None => None,
            },
        }
    }
}

impl Clone for SiteCheckResult {
    fn clone(&self) -> (copy: Self)
        ensures
            copy@ == self@,
    {
        proof {
            use_type_invariant(self);
        }
        let unreachable_pages = match &self.unreachable_pages {
            Some(pages) => Some(pages.clone()),
            None => None,
        };
        SiteCheckResult {
            status: self.status,
            sitemap_url: self.sitemap_url.clone(),
            page_total: self.page_total,
            unreachable_total: self.unreachable_total,
            unreachable_pages,
        }
    }
}

impl SiteCheckResult {
    #[verifier::type_invariant]
    spec fn inv(self) -> bool {
        self@.wf()
    }

    /// Whether the sitemap was retrieved and parsed.
    pub fn status(&self) -> (status: SiteCheckStatus)
        ensures
            status == self@.status,
            self@.wf(),
    {
        proof {
            use_type_invariant(self);
        }
        self.status
    }

    /// The URL of the sitemap that this result describes.
    pub fn sitemap_url(&self) -> (url: &String)
        ensures
            url@ == self@.sitemap_url,
            self@.wf(),
    {
        proof {
            use_type_invariant(self);
        }
        &self.sitemap_url
    }

    /// The number of pages that the sitemap lists; present on success only.
    pub fn page_total(&self) -> (total: Option<usize>)
        ensures
            match total {
                Some(n) => self@.page_total == Some(n as nat),
                None => self@.page_total is None,
            },
            self@.wf(),
    {
        proof {
            use_type_invariant(self);
        }
        self.page_total
    }

    /// The number of pages that could not be reached; present on success
    /// only, and then no more than the page total.
    pub fn unreachable_total(&self) -> (total: Option<usize>)
        ensures
            match total {
                Some(n) => self@.unreachable_total == Some(n as nat),
                None => self@.unreachable_total is None,
            },
            self@.wf(),
    {
        proof {
            use_type_invariant(self);
        }
        self.unreachable_total
    }

    /// The unreachable pages, joined by a comma and a space; present exactly
    /// when at least one page could not be reached.
    pub fn unreachable_pages(&self) -> (pages: Option<&String>)
        ensures
            match pages {
                Some(text) => self@.unreachable_pages == Some(text@),
                None => self@.unreachable_pages is None,
            },
            self@.wf(),
    {
        proof {
            use_type_invariant(self);
        }
        match &self.unreachable_pages {
            Some(text) => Some(text),
            None => None,
        }
    }

    /// The summary for a sitemap that could not be fetched.
    pub fn unreachable_sitemap(sitemap_url: String) -> (result: Self)
        ensures
            result@ == failure_view(SiteCheckStatus::UnreachableSitemap, sitemap_url@),
    {
        SiteCheckResult {
            status: SiteCheckStatus::UnreachableSitemap,
            sitemap_url,
            page_total: None,
            unreachable_total: None,
            unreachable_pages: None,
        }
    }

    /// The summary for a sitemap whose content could not be read as XML.
    pub fn invalid_sitemap(sitemap_url: String) -> (result: Self)
        ensures
            result@ == failure_view(SiteCheckStatus::InvalidSitemap, sitemap_url@),
    {
        SiteCheckResult {
            status: SiteCheckStatus::InvalidSitemap,
            sitemap_url,
            page_total: None,
            unreachable_total: None,
            unreachable_pages: None,
        }
    }

    /// The summary for a sitemap that lists `page_total` pages, of which
    /// `unreachable` failed their probe.
    pub fn success(sitemap_url: String, page_total: usize, unreachable: &Vec<String>) -> (result: Self)
        requires
            unreachable.len() <= page_total,
        ensures
            result@ == success_view(sitemap_url@, page_total as nat, unreachable.deep_view()),
    {
        let unreachable_pages = if unreachable.len() == 0 {
            None
        } else {
            Some(join_urls(unreachable))
        };
        SiteCheckResult {
            status: SiteCheckStatus::Success,
            sitemap_url,
            page_total: Some(page_total),
            unreachable_total: Some(unreachable.len()),
            unreachable_pages,
        }
    }
}

} // verus!
