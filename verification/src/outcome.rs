//! What came of one HTTP request, and when a page counts as reachable.

use vstd::prelude::*;

verus! {

/// The outcome of a single HTTP request, as far as a check reads it.
#[derive(Clone, Copy, Debug, PartialEq, Eq, Structural)]
pub enum HttpOutcome {
    /// No response arrived: the connection was refused, timed out, the name
    /// did not resolve, or the TLS handshake failed.
    TransportFailure,
    /// A response arrived with this status code.
    Status(u16),
}

/// The only status code that counts as success.
pub const HTTP_OK: u16 = 200;

/// A page is reachable exactly when a response arrived with status 200.
pub open spec fn reachable(outcome: HttpOutcome) -> bool {
    outcome == HttpOutcome::Status(HTTP_OK)
}

/// Classifies the single probe of a page. Nothing is retried: the one
/// outcome decides.
pub fn page_reachable(outcome: HttpOutcome) -> (ok: bool)
    ensures
        ok == reachable(outcome),
{
    match outcome {
        HttpOutcome::TransportFailure => false,
        HttpOutcome::Status(code) => code == HTTP_OK,
    }
}

} // verus!
