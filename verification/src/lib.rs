//! Uptime checking for the pages that a sitemap lists.
//!
//! The library holds the rules of a sitemap check and proves them: which
//! strings a sitemap document yields, when a page counts as reachable, how a
//! check moves from one probe to the next, what the summary of a check holds,
//! and which endpoints the summary is posted to. It performs no I/O. A caller
//! fetches and posts, and hands the outcome of each request back.

pub mod config;
pub mod notify;
pub mod outcome;
pub mod report;
pub mod sitecheck;
pub mod sitemap;

pub use config::Args;
pub use notify::{notifications_for, post_delivered};
pub use outcome::{page_reachable, HttpOutcome};
pub use report::{join_urls, SiteCheckResult, SiteCheckResultView, SiteCheckStatus};
pub use sitecheck::{is_ignored, CheckStep, PageProbe, SitemapCheck, SitemapFetch};
pub use sitemap::{extract_urls, sitemap_urls, SitemapError, XmlNode, XmlNodeView};
