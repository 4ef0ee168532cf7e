use ghwatch::domain::attention::parse_ts;
use ghwatch::domain::time::Timestamp;
use ghwatch::polling::worker::{
    apply_age_cutoff, effective_interval, parse_duration, pause_secs, rate_action, retry_delay, PollSchedule, RateAction,
    TickStart,
};
use std::time::Duration;

fn fixed_now() -> Timestamp {
    parse_ts("2026-05-18T12:00:00Z").unwrap()
}

#[test]
fn test_apply_age_cutoff_none_returns_query_unchanged() {
    let out = apply_age_cutoff("is:pr author:@me", None, fixed_now());
    assert_eq!(out, "is:pr author:@me");
}

#[test]
fn test_apply_age_cutoff_zero_returns_query_unchanged() {
    let out = apply_age_cutoff("is:pr author:@me", Some(0), fixed_now());
    assert_eq!(out, "is:pr author:@me");
}

#[test]
fn test_apply_age_cutoff_appends_updated_qualifier() {
    let out = apply_age_cutoff("is:pr author:@me", Some(14), fixed_now());
    assert_eq!(out, "is:pr author:@me updated:>=2026-05-04");
}

#[test]
fn test_apply_age_cutoff_leaves_existing_updated_qualifier() {
    let out = apply_age_cutoff("is:pr author:@me updated:>=2020-01-01", Some(7), fixed_now());
    assert_eq!(out, "is:pr author:@me updated:>=2020-01-01 updated:>=2026-05-11");
}

#[test]
fn test_parse_duration() {
    assert_eq!(parse_duration("60s").map(Duration::from_secs), Some(Duration::from_secs(60)));
    assert_eq!(parse_duration("5m").map(Duration::from_secs), Some(Duration::from_secs(5 * 60)));
    assert_eq!(parse_duration("10").map(Duration::from_secs), Some(Duration::from_secs(10)));
    assert_eq!(parse_duration("invalid"), None);
}

#[test]
fn test_parse_duration_edge_cases() {
    assert_eq!(parse_duration(""), None);
    assert_eq!(parse_duration("s"), None);
    assert_eq!(parse_duration("+7s"), Some(7));
    assert_eq!(parse_duration("1h"), None);
}

#[test]
fn test_rate_action_thresholds() {
    assert_eq!(rate_action(0), RateAction::Pause);
    assert_eq!(rate_action(49), RateAction::Pause);
    assert_eq!(rate_action(50), RateAction::SlowDown);
    assert_eq!(rate_action(99), RateAction::SlowDown);
    assert_eq!(rate_action(100), RateAction::Proceed);
}

#[test]
fn test_poll_schedule_round_robin_and_first_sync() {
    let mut s = PollSchedule::new(2);
    assert_eq!(s.begin_tick(), TickStart::StartCycle);
    assert!(s.is_due(1_000, 60));
    s.record_poll(1_000);
    assert!(!s.is_due(30_000, 60));
    assert!(s.is_due(61_000, 60));
    assert!(!s.advance());
    assert_eq!(s.query_index(), 1);
    assert_eq!(s.begin_tick(), TickStart::Continue);
    assert!(s.advance());
    assert_eq!(s.query_index(), 0);
    assert!(!s.advance());
    assert!(!s.advance());
    let empty = PollSchedule::new(0);
    assert_eq!(empty.begin_tick(), TickStart::Idle);
    let mut other = PollSchedule::new(1);
    assert!(other.skip_cycle());
    assert!(!other.skip_cycle());
}

#[test]
fn test_apply_age_cutoff_at_earliest_representable_date() {
    // The cutoff lands on the first day chrono converts a timestamp to.
    let now = Timestamp { secs: -8_334_601_228_800 + 86_400, nanos: 0 };
    let out = apply_age_cutoff("q", Some(1), now);
    assert_eq!(out, "q updated:>=-262143-01-01");
}

#[test]
fn test_apply_age_cutoff_near_latest_representable_date() {
    let now = Timestamp { secs: 8_210_266_876_799, nanos: 0 };
    let out = apply_age_cutoff("q", Some(1), now);
    assert_eq!(out, "q updated:>=+262142-12-30");
}

#[test]
fn test_low_rate_limit_doubles_poll_interval() {
    assert_eq!(effective_interval(60, 5000), 60);
    assert_eq!(effective_interval(60, 100), 60);
    assert_eq!(effective_interval(60, 99), 120);
    assert_eq!(effective_interval(u64::MAX, 10), u64::MAX);
}

#[test]
fn test_critical_rate_limit_pauses_until_reset() {
    assert_eq!(pause_secs(1_700_000_600, 1_700_000_000), 600);
    assert_eq!(pause_secs(1_700_000_000, 1_700_000_600), 0);
}

#[test]
fn test_failed_calls_retried_twice_with_backoff() {
    assert_eq!(retry_delay(1), Some(1));
    assert_eq!(retry_delay(2), Some(4));
    assert_eq!(retry_delay(3), None);
    assert_eq!(retry_delay(0), None);
}
