//! Where the result of a check is posted, and when a post counts as
//! delivered.

use vstd::prelude::*;
use crate::config::Args;
use crate::outcome::{HttpOutcome, HTTP_OK};
use crate::report::{SiteCheckResult, SiteCheckResultView, SiteCheckStatus};

verus! {

/// The endpoints that the outcome of one check is posted to, in the order of
/// the posts. A check that ended without a result is posted nowhere. A
/// result goes to the notification endpoint, and after that to the critical
/// endpoint if it names unreachable pages.
pub open spec fn notification_targets(
    completed: Option<SiteCheckResultView>,
    notification_url: Seq<char>,
    critical_url: Seq<char>,
) -> Seq<Seq<char>> {
    match completed {
        None => Seq::empty(),
        Some(result) => if result.unreachable_pages is Some {
            seq![notification_url, critical_url]
        } else {
            seq![notification_url]
        },
    }
}

/// A post is delivered exactly when a response arrived with status 200.
pub open spec fn delivered(outcome: HttpOutcome) -> bool {
    outcome == HttpOutcome::Status(HTTP_OK)
}

/// The URLs to post the outcome of one check to, in order. `completed` is
/// `None` for a check that ended without a result.
pub fn notifications_for(completed: Option<&SiteCheckResult>, args: &Args) -> (targets: Vec<String>)
    ensures
        targets.deep_view() == notification_targets(
            match completed {
                Some(result) => Some(result@),
                None => None,
            },
            args.notification_url@,
            args.critical_url@,
        ),
{
    let mut targets: Vec<String> = Vec::new();
    match completed {
        None => {
            assert(targets.deep_view() =~= Seq::<Seq<char>>::empty());
        },
        Some(result) => {
            targets.push(args.notification_url.clone());
            if result.unreachable_pages().is_some() {
                targets.push(args.critical_url.clone());
                assert(targets.deep_view() =~= seq![args.notification_url@, args.critical_url@]);
            } else {
                assert(targets.deep_view() =~= seq![args.notification_url@]);
            }
        },
    }
    targets
}

/// Whether a post reached its endpoint. A post that did not is reported in
/// the log and nowhere else: the run goes on.
pub fn post_delivered(outcome: HttpOutcome) -> (ok: bool)
    ensures
        ok == delivered(outcome),
{
    match outcome {
        HttpOutcome::TransportFailure => false,
        HttpOutcome::Status(code) => code == HTTP_OK,
    }
}

/// A well-formed result is posted twice exactly when it is a success with at
/// least one unreachable page, and once otherwise. The first post always
/// goes to the notification endpoint, the second to the critical one.
pub proof fn lemma_posts_by_status(result: SiteCheckResultView, notification_url: Seq<char>, critical_url: Seq<char>)
    requires
        result.wf(),
    ensures
        notification_targets(Some(result), notification_url, critical_url) == if result.status
            == SiteCheckStatus::Success && result.unreachable_total.unwrap() > 0 {
            seq![notification_url, critical_url]
        } else {
            seq![notification_url]
        },
{
}

} // verus!
