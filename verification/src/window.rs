//! The fixed-window request counter: per-client admission control against an
//! external key-value store.
//!
//! The store itself (a point `get`, a point `put` with an expiry) lives
//! outside this crate; the caller reads the client's counter record, hands it
//! here together with the current time, and persists the returned record —
//! with an expiry of one window — exactly when the request was admitted.
//! The window boundary is evaluated lazily: a counter whose window has
//! elapsed is reset on the next read, not by a timer.
//!
//! The read-modify-write cycle is not atomic: two concurrent requests from
//! one client may both observe a count below the limit and both increment,
//! transiently letting the stored count exceed the limit.  That best-effort
//! race is a property of the store protocol, accepted and documented rather
//! than hidden; the functions here are exact for each single call.
use crate::reports::RateLimitStatus;
use vstd::prelude::*;

verus! {

/// One client's counter record as kept in the external store.
#[derive(Debug, Clone, Copy, PartialEq, Eq, Structural)]
pub struct RateInfo {
    /// Requests admitted so far in the current window.
    pub count: u32,
    /// When the current window began, in unix seconds.
    pub window_start: u64,
}

/// The outcome of one admission check.
#[derive(Debug, Clone, Copy, PartialEq, Eq, Structural)]
pub struct RateDecision {
    /// Whether the request was admitted.
    pub admitted: bool,
    /// The counter record after the check.  The caller persists it, with an
    /// expiry of one window, exactly when `admitted` is true.
    pub info: RateInfo,
}

/// Whether a record read back from the store can be meaningful at time
/// `now`: its window cannot have started in the future.
pub open spec fn stored_record_ok(stored: Option<RateInfo>, now: u64) -> bool {
    stored matches Some(info) ==> info.window_start <= now
}

/// The counter record in effect at time `now`: the stored record, except
/// that a missing record and one whose window has elapsed both read as a
/// fresh zero counter whose window starts now.
pub open spec fn effective_info(stored: Option<RateInfo>, now: u64, window_seconds: u64) -> RateInfo
    recommends
        stored_record_ok(stored, now),
{
    match stored {
        Some(info) => if now - info.window_start >= window_seconds {
            RateInfo { count: 0, window_start: now }
        } else {
            info
        },
        None => RateInfo { count: 0, window_start: now },
    }
}

/// One admission check: resets an elapsed window, then admits the request
/// and counts it exactly when the count is still below the limit.  A denied
/// request leaves the record unchanged.
pub fn check_and_increment(stored: Option<RateInfo>, now: u64, limit: u32, window_seconds: u64) -> (
    r: RateDecision)
    requires
        stored_record_ok(stored, now),
    ensures
        ({
            let eff = effective_info(stored, now, window_seconds);
            &&& r.admitted <==> eff.count < limit
            &&& r.info.window_start == eff.window_start
            &&& r.info.count == if eff.count < limit {
                eff.count + 1
            } else {
                eff.count as int
            }
        }),
{
    let info = peek(stored, now, window_seconds);
    if info.count >= limit {
        return RateDecision { admitted: false, info };
    }
    RateDecision {
        admitted: true,
        info: RateInfo { count: info.count + 1, window_start: info.window_start },
    }
}

/// Reads the counter in effect at time `now` without consuming a request:
/// the same window-expiry logic as [`check_and_increment`], but nothing to
/// persist.
pub fn peek(stored: Option<RateInfo>, now: u64, window_seconds: u64) -> (r: RateInfo)
    requires
        stored_record_ok(stored, now),
    ensures
        r == effective_info(stored, now, window_seconds),
{
    match stored {
        Some(info) => {
            if now - info.window_start >= window_seconds {
                RateInfo { count: 0, window_start: now }
            } else {
                info
            }
        },
        None => RateInfo { count: 0, window_start: now },
    }
}

/// How many requests remain before the limit: `limit - count`, floored at
/// zero.
pub fn remaining_quota(limit: u32, count: u32) -> (r: u32)
    ensures
        r == if count >= limit {
            0int
        } else {
            limit - count
        },
{
    if count >= limit {
        0
    } else {
        limit - count
    }
}

/// Seconds until the current window ends: `window_seconds` less the time
/// already elapsed, both differences floored at zero.
pub fn reset_in_seconds(now: u64, window_start: u64, window_seconds: u64) -> (r: u64)
    ensures
        r == ({
            let elapsed = if now >= window_start {
                now - window_start
            } else {
                0int
            };
            if window_seconds >= elapsed {
                window_seconds - elapsed
            } else {
                0int
            }
        }),
{
    let elapsed = if now >= window_start {
        now - window_start
    } else {
        0
    };
    if window_seconds >= elapsed {
        window_seconds - elapsed
    } else {
        0
    }
}

/// Assembles the status report for one client from its effective counter:
/// the remaining quota and the time to the window's end, computed as
/// [`remaining_quota`] and [`reset_in_seconds`] state them.
pub fn status_report(client_id: String, info: &RateInfo, limit: u32, now: u64, window_seconds: u64)
    -> (r: RateLimitStatus)
    ensures
        r.client_id@ == client_id@,
        r.requests_made == info.count,
        r.requests_remaining == if info.count >= limit {
            0int
        } else {
            limit - info.count
        },
        r.limit == limit,
        r.reset_in_seconds == ({
            let elapsed = if now >= info.window_start {
                now - info.window_start
            } else {
                0int
            };
            if window_seconds >= elapsed {
                window_seconds - elapsed
            } else {
                0int
            }
        }),
{
    let requests_remaining = remaining_quota(limit, info.count);
    let reset = reset_in_seconds(now, info.window_start, window_seconds);
    RateLimitStatus {
        client_id,
        requests_made: info.count,
        requests_remaining,
        limit,
        reset_in_seconds: reset,
    }
}

} // verus!
