use edge_kernels::window::{
    check_and_increment, peek, remaining_quota, reset_in_seconds, status_report, RateInfo,
};

/// Drives one admission check against a simulated store slot, persisting the
/// updated record exactly when the request was admitted — the protocol the
/// service's store loop follows.
fn step(slot: &mut Option<RateInfo>, now: u64, limit: u32, window_seconds: u64) -> (bool, RateInfo) {
    let decision = check_and_increment(*slot, now, limit, window_seconds);
    if decision.admitted {
        *slot = Some(decision.info);
    }
    (decision.admitted, decision.info)
}

#[test]
fn test_window_counter_sequence() {
    // a fresh client with limit 10 and a 60 second window
    let mut slot: Option<RateInfo> = None;
    let now = 1_000_000;
    for i in 1..=10u32 {
        let (admitted, info) = step(&mut slot, now, 10, 60);
        assert!(admitted, "request {i} should be admitted");
        assert_eq!(info.count, i);
        assert_eq!(info.window_start, now);
    }
    // the eleventh request is denied and the count stays at 10
    let (admitted, info) = step(&mut slot, now, 10, 60);
    assert!(!admitted);
    assert_eq!(info.count, 10);
    // after the window elapses the next request resets the count to 1
    let (admitted, info) = step(&mut slot, now + 60, 10, 60);
    assert!(admitted);
    assert_eq!(info.count, 1);
    assert_eq!(info.window_start, now + 60);
}

#[test]
fn test_window_reset_on_ttl_expiry() {
    // an idle client's record expires in the store and reads back as absent
    let (admitted, info) = {
        let d = check_and_increment(None, 2_000, 10, 60);
        (d.admitted, d.info)
    };
    assert!(admitted);
    assert_eq!(info, RateInfo { count: 1, window_start: 2_000 });
}

#[test]
fn test_window_boundary_is_inclusive() {
    let stored = Some(RateInfo { count: 7, window_start: 1_000 });
    // one second before the boundary the window still stands
    let d = check_and_increment(stored, 1_059, 10, 60);
    assert!(d.admitted);
    assert_eq!(d.info, RateInfo { count: 8, window_start: 1_000 });
    // at exactly window_seconds elapsed the counter resets
    let d = check_and_increment(stored, 1_060, 10, 60);
    assert!(d.admitted);
    assert_eq!(d.info, RateInfo { count: 1, window_start: 1_060 });
}

#[test]
fn test_denied_request_leaves_record_unchanged() {
    let stored = Some(RateInfo { count: 10, window_start: 1_000 });
    let d = check_and_increment(stored, 1_010, 10, 60);
    assert!(!d.admitted);
    assert_eq!(d.info, stored.unwrap());
}

#[test]
fn test_peek_applies_expiry_without_writing() {
    let stored = Some(RateInfo { count: 4, window_start: 1_000 });
    // inside the window the stored record is returned as is
    assert_eq!(peek(stored, 1_030, 60), RateInfo { count: 4, window_start: 1_000 });
    // after the window it reads as a fresh counter
    assert_eq!(peek(stored, 1_060, 60), RateInfo { count: 0, window_start: 1_060 });
    // an absent record reads as a fresh counter too
    assert_eq!(peek(None, 1_030, 60), RateInfo { count: 0, window_start: 1_030 });
}

#[test]
fn test_zero_limit_denies_everything() {
    let d = check_and_increment(None, 1_000, 0, 60);
    assert!(!d.admitted);
    assert_eq!(d.info, RateInfo { count: 0, window_start: 1_000 });
}

#[test]
fn test_remaining_quota() {
    assert_eq!(remaining_quota(10, 0), 10);
    assert_eq!(remaining_quota(10, 3), 7);
    assert_eq!(remaining_quota(10, 10), 0);
    // a count above the limit still reports zero, never underflows
    assert_eq!(remaining_quota(10, 12), 0);
}

#[test]
fn test_reset_in_seconds() {
    assert_eq!(reset_in_seconds(1_030, 1_000, 60), 30);
    assert_eq!(reset_in_seconds(1_000, 1_000, 60), 60);
    // at or past the boundary the reset time floors at zero
    assert_eq!(reset_in_seconds(1_060, 1_000, 60), 0);
    assert_eq!(reset_in_seconds(1_100, 1_000, 60), 0);
    // a window start in the future counts as no elapsed time
    assert_eq!(reset_in_seconds(900, 1_000, 60), 60);
}

#[test]
fn test_status_report_fields() {
    let info = RateInfo { count: 5, window_start: 1_000 };
    let report = status_report("ip:1.2.3.4".to_string(), &info, 10, 1_030, 60);
    assert_eq!(report.client_id, "ip:1.2.3.4");
    assert_eq!(report.requests_made, 5);
    assert_eq!(report.requests_remaining, 5);
    assert_eq!(report.limit, 10);
    assert_eq!(report.reset_in_seconds, 30);
}
