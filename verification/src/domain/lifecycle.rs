//! Unread state and the automatic unfollowing of finished pull requests.
use vstd::prelude::*;
use crate::domain::pr::{PullRequest, PRStatus};
use crate::domain::time::{Timestamp, spec_parse_rfc3339, spec_minutes_elapsed, parse_rfc3339, span_nanos, now_utc};
use crate::util::text::{lex_lt, str_lt};

verus! {

/// Never seen, or its `updated_at` text sorts after the `last_seen_at` text.
pub open spec fn spec_is_unread(pr: PullRequest) -> bool {
    match pr.last_seen_at {
        None => true,
        Some(seen) => lex_lt(seen@, pr.updated_at@),
    }
}

/// The pull request changed since it was last seen.
pub fn is_unread(pr: &PullRequest) -> (b: bool)
    ensures
        b == spec_is_unread(*pr),
{
    match &pr.last_seen_at {
        None => true,
        Some(seen_at) => str_lt(seen_at.as_str(), pr.updated_at.as_str()),
    }
}

/// The timeout fits a `chrono` duration (wider ones make it panic).
pub open spec fn timeout_in_range(mins: u64) -> bool {
    -153_722_867_280_912 <= (mins as i64) <= 153_722_867_280_912
}

/// A closed or merged pull request whose `updated_at` parses and lies at
/// least `timeout_mins` minutes before `now`.
pub open spec fn spec_should_auto_unfollow(pr: PullRequest, timeout_mins: u64, now: Timestamp) -> bool {
    pr.status != PRStatus::Open && match spec_parse_rfc3339(pr.updated_at@) {
        Some(updated) => spec_minutes_elapsed(now, updated, timeout_mins as i64 as int),
        None => false,
    }
}

/// Whether the pull request should leave the active list at `now`.
pub fn should_auto_unfollow_at(pr: &PullRequest, timeout_mins: u64, now: Timestamp) -> (b: bool)
    requires
        timeout_in_range(timeout_mins),
    ensures
        b == spec_should_auto_unfollow(*pr, timeout_mins, now),
{
    if pr.status == PRStatus::Open {
        return false;
    }
    let updated_at = match parse_rfc3339(pr.updated_at.as_str()) {
        Some(t) => t,
        None => return false,
    };
    let mins = #[verifier::truncate] (timeout_mins as i64);
    span_nanos(now, updated_at) >= (mins as i128) * 60_000_000_000
}

/// Whether the pull request should leave the active list now (reads the clock).
pub fn should_auto_unfollow(pr: &PullRequest, timeout_mins: u64) -> (b: bool)
    requires
        timeout_in_range(timeout_mins),
    ensures
        exists|now: Timestamp| now.wf() && b == spec_should_auto_unfollow(*pr, timeout_mins, now),
{
    let now = now_utc();
    should_auto_unfollow_at(pr, timeout_mins, now)
}

} // verus!
