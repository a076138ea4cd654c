use sitewatch::{
    is_ignored, notifications_for, page_reachable, Args, CheckStep, HttpOutcome, SiteCheckResult,
    SiteCheckStatus, SitemapCheck, SitemapFetch,
};

fn strings(items: &[&str]) -> Vec<String> {
    items.iter().map(|s| s.to_string()).collect()
}

fn sitemap_of(urls: &[&str]) -> String {
    let mut text = String::from("<urlset>");
    for url in urls {
        text.push_str("<url><loc>");
        text.push_str(url);
        text.push_str("</loc></url>");
    }
    text.push_str("</urlset>");
    text
}

/// Runs a check to its end. Each probe is answered by `answer`; the URLs
/// that were probed are returned with the result.
fn run(step: CheckStep<'_>, answer: fn(&str) -> HttpOutcome) -> (SiteCheckResult, Vec<String>) {
    let mut probed = Vec::new();
    let mut step = step;
    loop {
        match step {
            CheckStep::Done(result) => return (result, probed),
            CheckStep::Probe(probe) => {
                let url = probe.url().clone();
                let outcome = answer(&url);
                probed.push(url);
                step = probe.probed(outcome);
            }
        }
    }
}

fn only_c_fails(url: &str) -> HttpOutcome {
    if url == "c" {
        HttpOutcome::TransportFailure
    } else {
        HttpOutcome::Status(200)
    }
}

fn all_ok(_url: &str) -> HttpOutcome {
    HttpOutcome::Status(200)
}

fn all_missing(_url: &str) -> HttpOutcome {
    HttpOutcome::Status(404)
}

fn args() -> Args {
    Args {
        sitemap: strings(&["https://one.example/sitemap.xml", "https://two.example/sitemap.xml"]),
        notification_url: "https://hooks.example/all".to_owned(),
        critical_url: "https://hooks.example/critical".to_owned(),
        ignore: None,
    }
}

#[test]
fn only_status_200_is_reachable() {
    assert!(page_reachable(HttpOutcome::Status(200)));
    for code in [0u16, 100, 199, 201, 204, 301, 302, 304, 400, 404, 500, 503, 65535] {
        assert!(!page_reachable(HttpOutcome::Status(code)), "{}", code);
    }
    assert!(!page_reachable(HttpOutcome::TransportFailure));
}

#[test]
fn ignoring_is_by_exact_match() {
    let list = strings(&["https://a.example/", "https://b.example/page"]);
    assert!(is_ignored(&"https://a.example/".to_owned(), Some(&list)));
    assert!(is_ignored(&"https://b.example/page".to_owned(), Some(&list)));
    assert!(!is_ignored(&"https://a.example".to_owned(), Some(&list)));
    assert!(!is_ignored(&"https://A.example/".to_owned(), Some(&list)));
    assert!(!is_ignored(&"https://b.example/page/".to_owned(), Some(&list)));
    assert!(!is_ignored(&"".to_owned(), Some(&list)));
    assert!(!is_ignored(&"https://a.example/".to_owned(), None));
    assert!(!is_ignored(&"https://a.example/".to_owned(), Some(&Vec::new())));
}

#[test]
fn three_pages_one_ignored_one_failing() {
    let ignore = strings(&["b"]);
    let check = SitemapCheck::new("https://one.example/sitemap.xml", Some(&ignore));
    assert_eq!(check.sitemap_url(), "https://one.example/sitemap.xml");
    let step = check.fetched(SitemapFetch::Body(sitemap_of(&["a", "b", "c"])));
    let (result, probed) = run(step, only_c_fails);
    assert_eq!(probed, strings(&["a", "c"]));
    assert_eq!(result.status(), SiteCheckStatus::Success);
    assert_eq!(result.sitemap_url(), "https://one.example/sitemap.xml");
    assert_eq!(result.page_total(), Some(3));
    assert_eq!(result.unreachable_total(), Some(1));
    assert_eq!(result.unreachable_pages(), Some(&"c".to_owned()));
    let posts = notifications_for(Some(&result), &args());
    assert_eq!(posts, strings(&["https://hooks.example/all", "https://hooks.example/critical"]));
}

#[test]
fn an_unreachable_sitemap_has_no_counts() {
    let check = SitemapCheck::new("https://one.example/sitemap.xml", None);
    let step = check.fetched(SitemapFetch::Unreachable);
    let (result, probed) = run(step, all_ok);
    assert!(probed.is_empty());
    assert_eq!(result.status(), SiteCheckStatus::UnreachableSitemap);
    assert_eq!(result.sitemap_url(), "https://one.example/sitemap.xml");
    assert_eq!(result.page_total(), None);
    assert_eq!(result.unreachable_total(), None);
    assert_eq!(result.unreachable_pages(), None);
    let posts = notifications_for(Some(&result), &args());
    assert_eq!(posts, strings(&["https://hooks.example/all"]));
}

#[test]
fn an_unreadable_body_is_an_invalid_sitemap() {
    let check = SitemapCheck::new("s", None);
    let (result, probed) = run(check.fetched(SitemapFetch::Unreadable), all_ok);
    assert!(probed.is_empty());
    assert_eq!(result.status(), SiteCheckStatus::InvalidSitemap);
    assert_eq!(result.sitemap_url(), "s");
    assert_eq!(result.page_total(), None);
    assert_eq!(result.unreachable_total(), None);
    assert_eq!(result.unreachable_pages(), None);
}

#[test]
fn unparseable_content_is_an_invalid_sitemap() {
    let check = SitemapCheck::new("s", None);
    let fetch = SitemapFetch::Body("<urlset><url><loc>a</loc>".to_owned());
    let (result, probed) = run(check.fetched(fetch), all_ok);
    assert!(probed.is_empty());
    assert_eq!(result.status(), SiteCheckStatus::InvalidSitemap);
    assert_eq!(result.page_total(), None);
    assert_eq!(result.unreachable_total(), None);
    assert_eq!(result.unreachable_pages(), None);
    let posts = notifications_for(Some(&result), &args());
    assert_eq!(posts, strings(&["https://hooks.example/all"]));
}

#[test]
fn an_error_page_in_place_of_a_sitemap_is_judged_by_its_content() {
    let check = SitemapCheck::new("s", None);
    let fetch = SitemapFetch::Body("<html><body>Not Found</body></html>".to_owned());
    let (result, _) = run(check.fetched(fetch), all_ok);
    assert_eq!(result.status(), SiteCheckStatus::Success);
    assert_eq!(result.page_total(), Some(0));
    assert_eq!(result.unreachable_total(), Some(0));
    assert_eq!(result.unreachable_pages(), None);
}

#[test]
fn two_sitemaps_keep_their_pages_apart() {
    let ignore = None;
    let clean = SitemapCheck::new("https://one.example/sitemap.xml", ignore);
    let broken = SitemapCheck::new("https://two.example/sitemap.xml", ignore);
    let clean_step = clean.fetched(SitemapFetch::Body(sitemap_of(&["a", "b"])));
    let broken_step = broken.fetched(SitemapFetch::Body(sitemap_of(&["c", "d"])));
    // The second check finishes first.
    let (broken_result, broken_probed) = run(broken_step, only_c_fails);
    let (clean_result, clean_probed) = run(clean_step, only_c_fails);
    assert_eq!(clean_probed, strings(&["a", "b"]));
    assert_eq!(broken_probed, strings(&["c", "d"]));

    assert_eq!(clean_result.status(), SiteCheckStatus::Success);
    assert_eq!(clean_result.sitemap_url(), "https://one.example/sitemap.xml");
    assert_eq!(clean_result.page_total(), Some(2));
    assert_eq!(clean_result.unreachable_total(), Some(0));
    assert_eq!(clean_result.unreachable_pages(), None);

    assert_eq!(broken_result.status(), SiteCheckStatus::Success);
    assert_eq!(broken_result.sitemap_url(), "https://two.example/sitemap.xml");
    assert_eq!(broken_result.page_total(), Some(2));
    assert_eq!(broken_result.unreachable_total(), Some(1));
    assert_eq!(broken_result.unreachable_pages(), Some(&"c".to_owned()));

    let settings = args();
    assert_eq!(notifications_for(Some(&clean_result), &settings), strings(&["https://hooks.example/all"]));
    assert_eq!(
        notifications_for(Some(&broken_result), &settings),
        strings(&["https://hooks.example/all", "https://hooks.example/critical"])
    );
}

#[test]
fn unreachable_pages_keep_the_order_of_the_sitemap() {
    let check = SitemapCheck::new("s", None);
    let step = check.listed(strings(&["https://x.example/3", "https://x.example/1", "https://x.example/2"]));
    let (result, probed) = run(step, all_missing);
    assert_eq!(probed.len(), 3);
    assert_eq!(result.page_total(), Some(3));
    assert_eq!(result.unreachable_total(), Some(3));
    assert_eq!(
        result.unreachable_pages(),
        Some(&"https://x.example/3, https://x.example/1, https://x.example/2".to_owned())
    );
}

#[test]
fn ignored_pages_count_toward_the_total_only() {
    let ignore = strings(&["a", "c", "e"]);
    let check = SitemapCheck::new("s", Some(&ignore));
    let step = check.listed(strings(&["a", "b", "c", "d", "e"]));
    let (result, probed) = run(step, all_missing);
    assert_eq!(probed, strings(&["b", "d"]));
    assert_eq!(result.page_total(), Some(5));
    assert_eq!(result.unreachable_total(), Some(2));
    assert_eq!(result.unreachable_pages(), Some(&"b, d".to_owned()));
}

#[test]
fn a_sitemap_of_ignored_pages_only_probes_nothing() {
    let ignore = strings(&["a", "b"]);
    let check = SitemapCheck::new("s", Some(&ignore));
    let step = check.listed(strings(&["a", "b", "a"]));
    assert!(matches!(step, CheckStep::Done(_)));
    let (result, probed) = run(step, all_missing);
    assert!(probed.is_empty());
    assert_eq!(result.status(), SiteCheckStatus::Success);
    assert_eq!(result.page_total(), Some(3));
    assert_eq!(result.unreachable_total(), Some(0));
    assert_eq!(result.unreachable_pages(), None);
}

#[test]
fn an_empty_sitemap_is_a_success() {
    let check = SitemapCheck::new("s", None);
    let step = check.fetched(SitemapFetch::Body("<urlset></urlset>".to_owned()));
    assert!(matches!(step, CheckStep::Done(_)));
    let (result, probed) = run(step, all_missing);
    assert!(probed.is_empty());
    assert_eq!(result.status(), SiteCheckStatus::Success);
    assert_eq!(result.page_total(), Some(0));
    assert_eq!(result.unreachable_total(), Some(0));
    assert_eq!(result.unreachable_pages(), None);
}

#[test]
fn a_page_listed_twice_is_probed_twice() {
    let check = SitemapCheck::new("s", None);
    let step = check.listed(strings(&["c", "a", "c"]));
    let (result, probed) = run(step, only_c_fails);
    assert_eq!(probed, strings(&["c", "a", "c"]));
    assert_eq!(result.page_total(), Some(3));
    assert_eq!(result.unreachable_total(), Some(2));
    assert_eq!(result.unreachable_pages(), Some(&"c, c".to_owned()));
}

#[test]
fn a_probe_names_its_page_and_place() {
    let ignore = strings(&["a"]);
    let check = SitemapCheck::new("https://one.example/sitemap.xml", Some(&ignore));
    let step = check.listed(strings(&["a", "b", "c"]));
    let probe = match step {
        CheckStep::Probe(probe) => probe,
        CheckStep::Done(_) => panic!("a page is left to probe"),
    };
    assert_eq!(probe.url(), "b");
    assert_eq!(probe.position(), 1);
    assert_eq!(probe.page_total(), 3);
    assert_eq!(probe.sitemap_url(), "https://one.example/sitemap.xml");
    let probe = match probe.probed(HttpOutcome::Status(500)) {
        CheckStep::Probe(probe) => probe,
        CheckStep::Done(_) => panic!("a page is left to probe"),
    };
    assert_eq!(probe.url(), "c");
    assert_eq!(probe.position(), 2);
    match probe.probed(HttpOutcome::Status(200)) {
        CheckStep::Probe(_) => panic!("no page is left to probe"),
        CheckStep::Done(result) => {
            assert_eq!(result.unreachable_total(), Some(1));
            assert_eq!(result.unreachable_pages(), Some(&"b".to_owned()));
        }
    }
}

#[test]
fn the_unreachable_are_never_more_than_the_pages() {
    let ignore = strings(&["page-3", "page-7"]);
    let urls: Vec<String> = (0..10).map(|i| format!("page-{}", i)).collect();
    for answer in [all_ok as fn(&str) -> HttpOutcome, all_missing, only_c_fails] {
        let check = SitemapCheck::new("s", Some(&ignore));
        let (result, _) = run(check.listed(urls.clone()), answer);
        let pages = result.page_total().unwrap();
        let unreachable = result.unreachable_total().unwrap();
        assert_eq!(pages, 10);
        assert!(unreachable <= pages);
        assert_eq!(result.unreachable_pages().is_some(), unreachable > 0);
    }
}
