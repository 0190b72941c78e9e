//! Plain records the service's status endpoints return to the dashboard.
//! They carry no logic of their own; the numeric fields of
//! [`RateLimitStatus`] are computed by the window counter
//! ([`crate::window::status_report`]).
use vstd::prelude::*;

verus! {

/// Usage statistics for one stored short link.
#[derive(Debug, Clone)]
pub struct UrlStats {
    /// The short code the link is stored under.
    pub code: String,
    /// The link it redirects to.
    pub original_url: String,
    /// When the link was created, in unix milliseconds.
    pub created_at: u64,
    /// How many times the link has been followed.
    pub clicks: u64,
}

/// A client's standing against the request limit, as reported without
/// consuming a request.
#[derive(Debug, Clone)]
pub struct RateLimitStatus {
    /// The client the report is about.
    pub client_id: String,
    /// Requests admitted in the current window.
    pub requests_made: u32,
    /// Requests left before the limit.
    pub requests_remaining: u32,
    /// The limit per window.
    pub limit: u32,
    /// Seconds until the current window ends.
    pub reset_in_seconds: u64,
}

} // verus!
