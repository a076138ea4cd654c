//! The check of one sitemap, as a sequence of steps.
//!
//! A check performs no request itself. It says what to request next, and is
//! told what came of it: first the sitemap, then one page at a time, in the
//! order in which the sitemap lists them. Each step is consumed by the next,
//! so a check cannot be told of a probe that it did not ask for.

use vstd::prelude::*;
use crate::outcome::{page_reachable, reachable, HttpOutcome};
use crate::report::{failure_view, success_view, SiteCheckResult, SiteCheckResultView, SiteCheckStatus};
use crate::sitemap::{document_nodes, page_urls, sitemap_urls};

verus! {

/// A URL is ignored when the ignore list holds exactly this string.
pub open spec fn ignored(url: Seq<char>, ignore: Option<Seq<Seq<char>>>) -> bool {
    ignore matches Some(list) && list.contains(url)
}

/// The strings of an ignore list, where there is one.
pub open spec fn ignore_list(urls_to_ignore: Option<&Vec<String>>) -> Option<Seq<Seq<char>>> {
    match urls_to_ignore {
        Some(list) => Some(list.deep_view()),
        None => None,
    }
}

/// The position of the first page at or after `from` that is not ignored;
/// the number of pages where there is none.
pub open spec fn next_page(urls: Seq<Seq<char>>, ignore: Option<Seq<Seq<char>>>, from: int) -> int
    decreases urls.len() - from,
{
    if from >= urls.len() {
        urls.len() as int
    } else if !ignored(urls[from], ignore) {
        from
    } else {
        next_page(urls, ignore, from + 1)
    }
}

/// What came of fetching the sitemap itself.
#[derive(Debug)]
pub enum SitemapFetch {
    /// No response arrived.
    Unreachable,
    /// A response arrived, but its body could not be read as text.
    Unreadable,
    /// The body of the response.
    Body(String),
}

/// The mathematical content of a [`SitemapFetch`].
pub enum SitemapFetchView {
    Unreachable,
    Unreadable,
    Body(Seq<char>),
}

impl View for SitemapFetch {
    type V = SitemapFetchView;

    open spec fn view(&self) -> SitemapFetchView {
        match self {
            SitemapFetch::Unreachable => SitemapFetchView::Unreachable,
            SitemapFetch::Unreadable => SitemapFetchView::Unreadable,
            SitemapFetch::Body(text) => SitemapFetchView::Body(text@),
        }
    }
}

/// The mathematical content of a [`SitemapCheck`].
pub struct SitemapCheckView {
    pub sitemap_url: Seq<char>,
    pub ignore: Option<Seq<Seq<char>>>,
}

/// The mathematical content of a [`PageProbe`]: the pages before `cursor`
/// are dealt with, the page at `cursor` is being probed, and `unreachable`
/// holds the pages that failed their probe so far.
pub struct PageProbeView {
    pub sitemap_url: Seq<char>,
    pub ignore: Option<Seq<Seq<char>>>,
    pub urls: Seq<Seq<char>>,
    pub cursor: int,
    pub unreachable: Seq<Seq<char>>,
}

impl PageProbeView {
    /// The page being probed exists and is not ignored, and no more pages
    /// have failed than were dealt with.
    pub open spec fn wf(self) -> bool {
        &&& 0 <= self.cursor < self.urls.len()
        &&& !ignored(self.urls[self.cursor], self.ignore)
        &&& self.unreachable.len() <= self.cursor
    }

    /// The page being probed.
    pub open spec fn url(self) -> Seq<char> {
        self.urls[self.cursor]
    }
}

/// The mathematical content of a [`CheckStep`].
pub enum CheckStepView {
    Probe(PageProbeView),
    Done(SiteCheckResultView),
}

impl CheckStepView {
    pub open spec fn wf(self) -> bool {
        match self {
            CheckStepView::Probe(probe) => probe.wf(),
            CheckStepView::Done(result) => result.wf(),
        }
    }

    /// The number of pages that are not dealt with yet.
    pub open spec fn pages_left(self) -> int {
        match self {
            CheckStepView::Probe(probe) => probe.urls.len() - probe.cursor,
            CheckStepView::Done(_) => 0,
        }
    }
}

/// Goes on with the pages from position `from`: the next page that is not
/// ignored is to be probed; where there is none the check is done, and every
/// listed page counts toward the total, the ignored ones too.
pub open spec fn resume(
    sitemap_url: Seq<char>,
    ignore: Option<Seq<Seq<char>>>,
    urls: Seq<Seq<char>>,
    from: int,
    unreachable: Seq<Seq<char>>,
) -> CheckStepView {
    let cursor = next_page(urls, ignore, from);
    if cursor < urls.len() {
        CheckStepView::Probe(PageProbeView { sitemap_url, ignore, urls, cursor, unreachable })
    } else {
        CheckStepView::Done(success_view(sitemap_url, urls.len(), unreachable))
    }
}

/// The step after the sitemap was read and found to list `urls`.
pub open spec fn after_listing(check: SitemapCheckView, urls: Seq<Seq<char>>) -> CheckStepView {
    resume(check.sitemap_url, check.ignore, urls, 0, Seq::empty())
}

/// The step after the fetch of the sitemap. A sitemap that could not be
/// fetched, read or parsed ends the check without any count.
pub open spec fn after_fetch(check: SitemapCheckView, fetch: SitemapFetchView) -> CheckStepView {
    match fetch {
        SitemapFetchView::Unreachable => CheckStepView::Done(
            failure_view(SiteCheckStatus::UnreachableSitemap, check.sitemap_url),
        ),
        SitemapFetchView::Unreadable => CheckStepView::Done(
            failure_view(SiteCheckStatus::InvalidSitemap, check.sitemap_url),
        ),
        SitemapFetchView::Body(text) => match document_nodes(text) {
            Some(nodes) => after_listing(check, page_urls(nodes)),
            None => CheckStepView::Done(failure_view(SiteCheckStatus::InvalidSitemap, check.sitemap_url)),
        },
    }
}

/// The step after the probe of the current page: the page joins the
/// unreachable ones unless it was reachable, and the check goes on behind it.
pub open spec fn after_probe(probe: PageProbeView, outcome: HttpOutcome) -> CheckStepView {
    resume(
        probe.sitemap_url,
        probe.ignore,
        probe.urls,
        probe.cursor + 1,
        if reachable(outcome) {
            probe.unreachable
        } else {
            probe.unreachable.push(probe.url())
        },
    )
}

/// `next_page` stays within the list, skips ignored pages only, and stops at
/// a page that is not ignored.
pub proof fn lemma_next_page(urls: Seq<Seq<char>>, ignore: Option<Seq<Seq<char>>>, from: int)
    requires
        0 <= from <= urls.len(),
    ensures
        from <= next_page(urls, ignore, from) <= urls.len(),
        next_page(urls, ignore, from) < urls.len() ==> !ignored(urls[next_page(urls, ignore, from)], ignore),
        forall|i: int| from <= i < next_page(urls, ignore, from) ==> ignored(#[trigger] urls[i], ignore),
    decreases urls.len() - from,
{
    if from < urls.len() && ignored(urls[from], ignore) {
        lemma_next_page(urls, ignore, from + 1);
    }
}

/// Whether `url` is in the ignore list, by exact comparison.
pub fn is_ignored(url: &String, urls_to_ignore: Option<&Vec<String>>) -> (skip: bool)
    ensures
        skip == ignored(url@, ignore_list(urls_to_ignore)),
{
    match urls_to_ignore {
        None => false,
        Some(list) => {
            let mut i: usize = 0;
            while i < list.len()
                invariant
                    i <= list.len(),
                    urls_to_ignore == Some(list),
                    forall|j: int| 0 <= j < i ==> list.deep_view()[j] != url@,
                decreases list.len() - i,
            {
                if list[i] == *url {
                    proof {
                        assert(list.deep_view()[i as int] == url@);
                        assert(list.deep_view().contains(url@));
                    }
                    return true;
                }
                i = i + 1;
            }
            false
        },
    }
}

/// A check that waits for its sitemap.
#[derive(Debug)]
pub struct SitemapCheck<'a> {
    sitemap_url: String,
    urls_to_ignore: Option<&'a Vec<String>>,
}

/// A check that waits for the probe of one page.
#[derive(Debug)]
pub struct PageProbe<'a> {
    sitemap_url: String,
    urls_to_ignore: Option<&'a Vec<String>>,
    urls: Vec<String>,
    cursor: usize,
    unreachable: Vec<String>,
}

/// What a check asks for next, or what it found.
#[derive(Debug)]
pub enum CheckStep<'a> {
    /// The page to probe next.
    Probe(PageProbe<'a>),
    /// The check is over.
    Done(SiteCheckResult),
}

impl<'a> View for SitemapCheck<'a> {
    type V = SitemapCheckView;

    closed spec fn view(&self) -> SitemapCheckView {
        SitemapCheckView { sitemap_url: self.sitemap_url@, ignore: ignore_list(self.urls_to_ignore) }
    }
}

impl<'a> View for PageProbe<'a> {
    type V = PageProbeView;

    closed spec fn view(&self) -> PageProbeView {
        PageProbeView {
            sitemap_url: self.sitemap_url@,
            ignore: ignore_list(self.urls_to_ignore),
            urls: self.urls.deep_view(),
            cursor: self.cursor as int,
            unreachable: self.unreachable.deep_view(),
        }
    }
}

impl<'a> View for CheckStep<'a> {
    type V = CheckStepView;

    open spec fn view(&self) -> CheckStepView {
        match self {
            CheckStep::Probe(probe) => CheckStepView::Probe(probe@),
            CheckStep::Done(result) => CheckStepView::Done(result@),
        }
    }
}

/// Goes on with the pages from position `from`.
fn resume_from<'a>(
    sitemap_url: String,
    urls_to_ignore: Option<&'a Vec<String>>,
    urls: Vec<String>,
    from: usize,
    unreachable: Vec<String>,
) -> (step: CheckStep<'a>)
    requires
        from <= urls.len(),
        unreachable.len() <= from,
    ensures
        step@ == resume(
            sitemap_url@,
            ignore_list(urls_to_ignore),
            urls.deep_view(),
            from as int,
            unreachable.deep_view(),
        ),
        step@.wf(),
{
    let mut cursor: usize = from;
    while cursor < urls.len()
        invariant
            from <= cursor <= urls.len(),
            unreachable.len() <= from,
            next_page(urls.deep_view(), ignore_list(urls_to_ignore), from as int) == next_page(
                urls.deep_view(),
                ignore_list(urls_to_ignore),
                cursor as int,
            ),
        decreases urls.len() - cursor,
    {
        if !is_ignored(&urls[cursor], urls_to_ignore) {
            proof {
                assert(urls.deep_view()[cursor as int] == urls[cursor as int]@);
            }
            return CheckStep::Probe(PageProbe { sitemap_url, urls_to_ignore, urls, cursor, unreachable });
        }
        cursor = cursor + 1;
    }
    CheckStep::Done(SiteCheckResult::success(sitemap_url, urls.len(), &unreachable))
}

impl<'a> SitemapCheck<'a> {
    /// Begins the check of the sitemap at `sitemap_url`. Pages whose URL is
    /// in `urls_to_ignore` will not be probed.
    pub fn new(sitemap_url: &str, urls_to_ignore: Option<&'a Vec<String>>) -> (check: Self)
        ensures
            check@ == (SitemapCheckView { sitemap_url: sitemap_url@, ignore: ignore_list(urls_to_ignore) }),
    {
        SitemapCheck { sitemap_url: sitemap_url.to_owned(), urls_to_ignore }
    }

    /// The URL to fetch the sitemap from.
    pub fn sitemap_url(&self) -> (url: &String)
        ensures
            url@ == self@.sitemap_url,
    {
        &self.sitemap_url
    }

    /// Takes the pages that the sitemap lists, and asks for the probe of the
    /// first one that is not ignored. Where every page is ignored, or none is
    /// listed, the check is done and was a success.
    pub fn listed(self, urls: Vec<String>) -> (step: CheckStep<'a>)
        ensures
            step@ == after_listing(self@, urls.deep_view()),
            step@.wf(),
    {
        let unreachable: Vec<String> = Vec::new();
        proof {
            assert(unreachable.deep_view() =~= Seq::<Seq<char>>::empty());
        }
        resume_from(self.sitemap_url, self.urls_to_ignore, urls, 0, unreachable)
    }

    /// Takes what came of fetching the sitemap. A sitemap that could not be
    /// fetched ends the check as `UnreachableSitemap`; one whose body could
    /// not be read, or is not well-formed XML, ends it as `InvalidSitemap`.
    /// Otherwise the check goes on with the pages that the body lists.
    pub fn fetched(self, fetch: SitemapFetch) -> (step: CheckStep<'a>)
        ensures
            step@ == after_fetch(self@, fetch@),
            step@.wf(),
    {
        match fetch {
            SitemapFetch::Unreachable => CheckStep::Done(
                SiteCheckResult::unreachable_sitemap(self.sitemap_url),
            ),
            SitemapFetch::Unreadable => CheckStep::Done(SiteCheckResult::invalid_sitemap(self.sitemap_url)),
            SitemapFetch::Body(text) => match sitemap_urls(text.as_str()) {
                Ok(urls) => self.listed(urls),
                Err(_) => CheckStep::Done(SiteCheckResult::invalid_sitemap(self.sitemap_url)),
            },
        }
    }
}

impl<'a> PageProbe<'a> {
    #[verifier::type_invariant]
    spec fn inv(self) -> bool {
        self@.wf()
    }

    /// The page to probe. It is never an ignored one.
    pub fn url(&self) -> (url: &String)
        ensures
            url@ == self@.url(),
            !ignored(url@, self@.ignore),
            self@.wf(),
    {
        proof {
            use_type_invariant(self);
        }
        &self.urls[self.cursor]
    }

    /// The position of the page to probe among the pages of the sitemap.
    pub fn position(&self) -> (index: usize)
        ensures
            index == self@.cursor,
    {
        self.cursor
    }

    /// The URL of the sitemap that lists the page.
    pub fn sitemap_url(&self) -> (url: &String)
        ensures
            url@ == self@.sitemap_url,
    {
        &self.sitemap_url
    }

    /// The number of pages that the sitemap lists.
    pub fn page_total(&self) -> (total: usize)
        ensures
            total == self@.urls.len(),
    {
        self.urls.len()
    }

    /// Takes what came of the probe. A page that was not reachable is added
    /// to the unreachable ones; then the next page that is not ignored is to
    /// be probed, or the check is done.
    pub fn probed(self, outcome: HttpOutcome) -> (step: CheckStep<'a>)
        ensures
            step@ == after_probe(self@, outcome),
            step@.wf(),
    {
        proof {
            use_type_invariant(&self);
        }
        let ghost before = self@;
        let PageProbe { sitemap_url, urls_to_ignore, urls, cursor, mut unreachable } = self;
        proof {
            assert(before.urls =~= urls.deep_view());
            assert(before.cursor == cursor);
            assert(before.unreachable == unreachable.deep_view());
            assert(cursor < urls.len());
        }
        if !page_reachable(outcome) {
            unreachable.push(urls[cursor].clone());
            proof {
                assert(unreachable.deep_view() =~= before.unreachable.push(before.url()));
            }
        }
        resume_from(sitemap_url, urls_to_ignore, urls, cursor + 1, unreachable)
    }
}

/// The pages among the first `n` of `urls` that end up unreachable when the
/// probe of the page at position `i` comes out as `outcome_at(i)`: those
/// that are not ignored and whose probe is not reachable, in order.
pub open spec fn failed_pages(
    urls: Seq<Seq<char>>,
    ignore: Option<Seq<Seq<char>>>,
    outcome_at: spec_fn(int) -> HttpOutcome,
    n: int,
) -> Seq<Seq<char>>
    decreases n,
{
    if n <= 0 {
        Seq::empty()
    } else if !ignored(urls[n - 1], ignore) && !reachable(outcome_at(n - 1)) {
        failed_pages(urls, ignore, outcome_at, n - 1).push(urls[n - 1])
    } else {
        failed_pages(urls, ignore, outcome_at, n - 1)
    }
}

/// The result that a check arrives at from `step` when the probe of the
/// page at position `i` comes out as `outcome_at(i)`.
pub open spec fn final_result(step: CheckStepView, outcome_at: spec_fn(int) -> HttpOutcome) -> SiteCheckResultView
    decreases step.pages_left(),
    when step.wf()
    via final_result_decreases
{
    match step {
        CheckStepView::Done(result) => result,
        CheckStepView::Probe(probe) => final_result(after_probe(probe, outcome_at(probe.cursor)), outcome_at),
    }
}

#[via_fn]
proof fn final_result_decreases(step: CheckStepView, outcome_at: spec_fn(int) -> HttpOutcome) {
    if let CheckStepView::Probe(probe) = step {
        lemma_next_page(probe.urls, probe.ignore, probe.cursor + 1);
    }
}

/// Ignored pages add nothing to the failed ones.
proof fn lemma_failed_pages_skip(
    urls: Seq<Seq<char>>,
    ignore: Option<Seq<Seq<char>>>,
    outcome_at: spec_fn(int) -> HttpOutcome,
    from: int,
    to: int,
)
    requires
        0 <= from <= to <= urls.len(),
        forall|i: int| from <= i < to ==> ignored(#[trigger] urls[i], ignore),
    ensures
        failed_pages(urls, ignore, outcome_at, to) == failed_pages(urls, ignore, outcome_at, from),
    decreases to - from,
{
    if from < to {
        lemma_failed_pages_skip(urls, ignore, outcome_at, from, to - 1);
    }
}

/// Whatever a fetch brings, the step after it is well-formed: a result that
/// it gives has its counts on success only, no more unreachable pages than
/// pages, and their list exactly when there is one.
pub proof fn lemma_after_fetch_wf(check: SitemapCheckView, fetch: SitemapFetchView)
    ensures
        after_fetch(check, fetch).wf(),
{
    if let SitemapFetchView::Body(text) = fetch {
        if let Some(nodes) = document_nodes(text) {
            lemma_after_listing_wf(check, page_urls(nodes));
        }
    }
}

/// Whatever pages a sitemap lists, the step after the listing is well-formed.
pub proof fn lemma_after_listing_wf(check: SitemapCheckView, urls: Seq<Seq<char>>)
    ensures
        after_listing(check, urls).wf(),
{
    lemma_next_page(urls, check.ignore, 0);
}

/// Whatever a probe brings, the step after it is well-formed when the one
/// before it was.
pub proof fn lemma_after_probe_wf(probe: PageProbeView, outcome: HttpOutcome)
    requires
        probe.wf(),
    ensures
        after_probe(probe, outcome).wf(),
{
    lemma_next_page(probe.urls, probe.ignore, probe.cursor + 1);
}

/// From a step whose unreachable pages are the failed ones among the pages
/// dealt with, the check arrives at a success that counts every listed page
/// and holds the failed ones among all of them.
proof fn lemma_final_result_from(
    sitemap_url: Seq<char>,
    ignore: Option<Seq<Seq<char>>>,
    urls: Seq<Seq<char>>,
    from: int,
    outcome_at: spec_fn(int) -> HttpOutcome,
)
    requires
        0 <= from <= urls.len(),
    ensures
        resume(sitemap_url, ignore, urls, from, failed_pages(urls, ignore, outcome_at, from)).wf(),
        final_result(
            resume(sitemap_url, ignore, urls, from, failed_pages(urls, ignore, outcome_at, from)),
            outcome_at,
        ) == success_view(sitemap_url, urls.len(), failed_pages(urls, ignore, outcome_at, urls.len() as int)),
    decreases urls.len() - from,
{
    let unreachable = failed_pages(urls, ignore, outcome_at, from);
    let cursor = next_page(urls, ignore, from);
    lemma_next_page(urls, ignore, from);
    lemma_failed_pages_skip(urls, ignore, outcome_at, from, cursor);
    lemma_failed_pages_len(urls, ignore, outcome_at, from);
    lemma_failed_pages_len(urls, ignore, outcome_at, urls.len() as int);
    if cursor < urls.len() {
        let probe = PageProbeView { sitemap_url, ignore, urls, cursor, unreachable };
        assert(failed_pages(urls, ignore, outcome_at, cursor + 1) == if reachable(outcome_at(cursor)) {
            unreachable
        } else {
            unreachable.push(urls[cursor])
        });
        lemma_final_result_from(sitemap_url, ignore, urls, cursor + 1, outcome_at);
    }
}

/// No more pages fail than are looked at.
pub proof fn lemma_failed_pages_len(
    urls: Seq<Seq<char>>,
    ignore: Option<Seq<Seq<char>>>,
    outcome_at: spec_fn(int) -> HttpOutcome,
    n: int,
)
    requires
        0 <= n,
    ensures
        failed_pages(urls, ignore, outcome_at, n).len() <= n,
    decreases n,
{
    if n > 0 {
        lemma_failed_pages_len(urls, ignore, outcome_at, n - 1);
    }
}

/// A check whose sitemap lists `urls` ends as a success, whatever the
/// probes bring. Its page total counts every listed page, the ignored ones
/// too, and its unreachable pages are exactly the pages that are not ignored
/// and whose probe was not reachable, in the order of the sitemap.
pub proof fn lemma_final_result_of_listing(
    check: SitemapCheckView,
    urls: Seq<Seq<char>>,
    outcome_at: spec_fn(int) -> HttpOutcome,
)
    ensures
        final_result(after_listing(check, urls), outcome_at) == success_view(
            check.sitemap_url,
            urls.len(),
            failed_pages(urls, check.ignore, outcome_at, urls.len() as int),
        ),
        final_result(after_listing(check, urls), outcome_at).wf(),
{
    lemma_final_result_from(check.sitemap_url, check.ignore, urls, 0, outcome_at);
    lemma_failed_pages_len(urls, check.ignore, outcome_at, urls.len() as int);
}

/// A page is among the failed ones exactly when the sitemap lists it at a
/// position where it is not ignored and its probe is not reachable. So an
/// ignored URL is never among them, nor one whose every probe answered 200.
pub proof fn lemma_failed_pages_contains(
    urls: Seq<Seq<char>>,
    ignore: Option<Seq<Seq<char>>>,
    outcome_at: spec_fn(int) -> HttpOutcome,
    n: int,
    url: Seq<char>,
)
    requires
        0 <= n <= urls.len(),
    ensures
        failed_pages(urls, ignore, outcome_at, n).contains(url) <==> exists|i: int|
            0 <= i < n && #[trigger] urls[i] == url && !ignored(url, ignore) && !reachable(outcome_at(i)),
    decreases n,
{
    let failed = failed_pages(urls, ignore, outcome_at, n);
    if n > 0 {
        let rest = failed_pages(urls, ignore, outcome_at, n - 1);
        lemma_failed_pages_contains(urls, ignore, outcome_at, n - 1, url);
        let last_fails = !ignored(urls[n - 1], ignore) && !reachable(outcome_at(n - 1));
        if failed.contains(url) {
            if rest.contains(url) {
                let i = choose|i: int|
                    0 <= i < n - 1 && #[trigger] urls[i] == url && !ignored(url, ignore) && !reachable(
                        outcome_at(i),
                    );
                assert(0 <= i < n && urls[i] == url);
            } else {
                assert(last_fails);
                let k = choose|k: int| 0 <= k < failed.len() && failed[k] == url;
                assert(k == rest.len());
                assert(urls[n - 1] == url);
            }
        }
        if exists|i: int|
            0 <= i < n && #[trigger] urls[i] == url && !ignored(url, ignore) && !reachable(outcome_at(i)) {
            let i = choose|i: int|
                0 <= i < n && #[trigger] urls[i] == url && !ignored(url, ignore) && !reachable(outcome_at(i));
            if i == n - 1 {
                assert(failed == rest.push(url));
                assert(failed[rest.len() as int] == url);
            } else {
                assert(rest.contains(url));
                let k = choose|k: int| 0 <= k < rest.len() && rest[k] == url;
                assert(failed[k] == url);
            }
        }
    }
}

/// What a check arrives at from the fetch of its sitemap. A sitemap that
/// could not be fetched gives `UnreachableSitemap`, one that could not be
/// read or parsed gives `InvalidSitemap`, both without counts. Any other
/// gives a success over the pages that it lists.
pub proof fn lemma_final_result_of_fetch(
    check: SitemapCheckView,
    fetch: SitemapFetchView,
    outcome_at: spec_fn(int) -> HttpOutcome,
)
    ensures
        final_result(after_fetch(check, fetch), outcome_at) == match fetch {
            SitemapFetchView::Unreachable => failure_view(
                SiteCheckStatus::UnreachableSitemap,
                check.sitemap_url,
            ),
            SitemapFetchView::Unreadable => failure_view(SiteCheckStatus::InvalidSitemap, check.sitemap_url),
            SitemapFetchView::Body(text) => match document_nodes(text) {
                None => failure_view(SiteCheckStatus::InvalidSitemap, check.sitemap_url),
                Some(nodes) => success_view(
                    check.sitemap_url,
                    page_urls(nodes).len(),
                    failed_pages(page_urls(nodes), check.ignore, outcome_at, page_urls(nodes).len() as int),
                ),
            },
        },
        final_result(after_fetch(check, fetch), outcome_at).wf(),
{
    lemma_after_fetch_wf(check, fetch);
    if let SitemapFetchView::Body(text) = fetch {
        if let Some(nodes) = document_nodes(text) {
            lemma_final_result_of_listing(check, page_urls(nodes), outcome_at);
        }
    }
}

} // verus!
