//! Properties of the attention model that hold for every poll.
use vstd::prelude::*;
use crate::domain::attention::{
    AttentionStateView, EventQuery, TriggerReason, spec_any_event, spec_evaluate, spec_dot_color, spec_fired,
    spec_has_reviewer_status, spec_list_has, spec_reason_cleared, spec_user_activity, spec_is_comment,
    spec_event_ts, spec_latest_comment_ts, spec_event_matches,
};
use crate::domain::pr::{PullRequest, PRStatus, CIStatus, MergeableStatus, ReviewStatus, TimelineEvent};
use crate::domain::time::{Timestamp, spec_parse_rfc3339};
use crate::util::text::seq_contains;

verus! {

/// Marking a pull request seen clears its dot: the state that marking
/// seen at `now` leaves shows no dot, unless the pull request's update time
/// lies after `now`.
pub proof fn lemma_seen_clears_dot(s: AttentionStateView, updated_at: Seq<char>, now: Timestamp)
    requires
        !(spec_parse_rfc3339(updated_at) matches Some(t) && now.spec_before(t)),
    ensures
        spec_dot_color(
            AttentionStateView { active: Set::empty(), last_seen_at: Some(now), last_comment_at: s.last_comment_at },
            updated_at,
        ) is None,
{
}

/// A closed or merged pull request has no active reason after a poll.
pub proof fn lemma_closed_has_no_reason(
    prev_state: Option<AttentionStateView>,
    prev_pr: Option<PullRequest>,
    new_pr: PullRequest,
    tl: Seq<TimelineEvent>,
    user: Seq<char>,
    now: Timestamp,
    quiet_mins: int,
    disabled: Set<TriggerReason>,
)
    requires
        new_pr.status == PRStatus::Closed || new_pr.status == PRStatus::Merged,
    ensures
        spec_evaluate(prev_state, prev_pr, new_pr, tl, user, now, quiet_mins, disabled).active
            == Set::<TriggerReason>::empty(),
{
}

/// A disabled rule never adds its reason: after a poll a disabled reason is
/// active only if it already was.
pub proof fn lemma_disabled_never_added(
    prev_state: Option<AttentionStateView>,
    prev_pr: Option<PullRequest>,
    new_pr: PullRequest,
    tl: Seq<TimelineEvent>,
    user: Seq<char>,
    now: Timestamp,
    quiet_mins: int,
    disabled: Set<TriggerReason>,
    r: TriggerReason,
)
    requires
        disabled.contains(r),
    ensures
        spec_evaluate(prev_state, prev_pr, new_pr, tl, user, now, quiet_mins, disabled).active.contains(r)
            ==> (prev_state matches Some(s) && s.active.contains(r)),
{
}

/// Passing CI leaves no failed-CI reason.
pub proof fn lemma_passing_ci_clears_failure(
    prev_state: Option<AttentionStateView>,
    prev_pr: Option<PullRequest>,
    new_pr: PullRequest,
    tl: Seq<TimelineEvent>,
    user: Seq<char>,
    now: Timestamp,
    quiet_mins: int,
    disabled: Set<TriggerReason>,
)
    requires
        new_pr.ci_status == CIStatus::Passing,
    ensures
        !spec_evaluate(prev_state, prev_pr, new_pr, tl, user, now, quiet_mins, disabled).active
            .contains(TriggerReason::CiFailed),
{
}

/// When a re-review request fires, the plain review request is not active
/// alongside it.
pub proof fn lemma_re_review_replaces_request(
    prev_state: Option<AttentionStateView>,
    prev_pr: Option<PullRequest>,
    new_pr: PullRequest,
    tl: Seq<TimelineEvent>,
    user: Seq<char>,
    now: Timestamp,
    quiet_mins: int,
    disabled: Set<TriggerReason>,
)
    requires
        new_pr.status == PRStatus::Open,
        spec_fired(TriggerReason::ReReviewRequested, prev_pr, new_pr, tl, user, now, quiet_mins,
            prev_state is None, match prev_state { Some(s) => s.last_seen_at, None => None }, disabled),
    ensures
        spec_evaluate(prev_state, prev_pr, new_pr, tl, user, now, quiet_mins, disabled).active
            .contains(TriggerReason::ReReviewRequested),
        !spec_evaluate(prev_state, prev_pr, new_pr, tl, user, now, quiet_mins, disabled).active
            .contains(TriggerReason::ReviewRequested),
{
}

/// The time the user last saw the pull request, in the state before a poll.
pub open spec fn seen_before(prev_state: Option<AttentionStateView>) -> Option<Timestamp> {
    match prev_state {
        Some(s) => s.last_seen_at,
        None => None,
    }
}

/// The pull request was converted to a draft, the user submitted a review,
/// or the user's review request was removed.
pub open spec fn review_clearing_event(
    prev_state: Option<AttentionStateView>,
    prev_pr: Option<PullRequest>,
    new_pr: PullRequest,
    tl: Seq<TimelineEvent>,
    user: Seq<char>,
) -> bool {
    ||| new_pr.is_draft && (prev_pr matches Some(p) && !p.is_draft)
    ||| spec_any_event(EventQuery::UserNewReview, tl, user, seen_before(prev_state), prev_state is None)
    ||| (prev_pr matches Some(p) && spec_list_has(p.requested_reviewers@, user)
            && !spec_list_has(new_pr.requested_reviewers@, user))
}

/// The review request reasons.
pub open spec fn is_review_reason(r: TriggerReason) -> bool {
    r == TriggerReason::ReviewRequested || r == TriggerReason::ReReviewRequested
}

/// Trigger reasons stay until a clearing event removes them: a reason active
/// before a poll of an open pull request is still active after it, unless the
/// user commented on the pull request, a clearing event for that
/// reason occurred, or a new review request or re-review request replaced the
/// other.
pub proof fn lemma_reason_stays_until_cleared(
    s: AttentionStateView,
    prev_pr: Option<PullRequest>,
    new_pr: PullRequest,
    tl: Seq<TimelineEvent>,
    user: Seq<char>,
    now: Timestamp,
    quiet_mins: int,
    disabled: Set<TriggerReason>,
    r: TriggerReason,
)
    requires
        s.active.contains(r),
        new_pr.status == PRStatus::Open,
        !spec_user_activity(new_pr, tl, user, false, s.last_seen_at),
        !spec_reason_cleared(r, prev_pr, new_pr, tl, user, false, s.last_seen_at),
        !(r == TriggerReason::ReviewRequested && spec_fired(TriggerReason::ReReviewRequested, prev_pr, new_pr,
            tl, user, now, quiet_mins, false, s.last_seen_at, disabled)),
        !(r == TriggerReason::ReReviewRequested && spec_fired(TriggerReason::ReviewRequested, prev_pr, new_pr,
            tl, user, now, quiet_mins, false, s.last_seen_at, disabled)),
    ensures
        spec_evaluate(Some(s), prev_pr, new_pr, tl, user, now, quiet_mins, disabled).active.contains(r),
{
}

/// A state-based trigger fires once: while CI keeps failing, changes stay
/// requested or the merge conflict stays, a reason that is not active (for
/// instance because the pull request was marked seen) does not come back.
pub proof fn lemma_no_refire_while_condition_persists(
    s: AttentionStateView,
    p: PullRequest,
    new_pr: PullRequest,
    tl: Seq<TimelineEvent>,
    user: Seq<char>,
    now: Timestamp,
    quiet_mins: int,
    disabled: Set<TriggerReason>,
    r: TriggerReason,
)
    requires
        !s.active.contains(r),
        (r == TriggerReason::CiFailed && p.ci_status == CIStatus::Failing)
            || (r == TriggerReason::ChangesRequested && p.review_status == ReviewStatus::ChangesRequested)
            || (r == TriggerReason::MergeConflict && p.mergeable == MergeableStatus::Conflicting),
    ensures
        !spec_evaluate(Some(s), Some(p), new_pr, tl, user, now, quiet_mins, disabled).active.contains(r),
{
}

/// Converting a pull request to a draft, the user's own review, and the
/// removal of the user's review request each clear both review request
/// reasons: after such a poll a review request reason is active only when its
/// rule fired on that same poll.
pub proof fn lemma_review_requests_cleared(
    prev_state: Option<AttentionStateView>,
    prev_pr: Option<PullRequest>,
    new_pr: PullRequest,
    tl: Seq<TimelineEvent>,
    user: Seq<char>,
    now: Timestamp,
    quiet_mins: int,
    disabled: Set<TriggerReason>,
    r: TriggerReason,
)
    requires
        is_review_reason(r),
        review_clearing_event(prev_state, prev_pr, new_pr, tl, user),
    ensures
        spec_evaluate(prev_state, prev_pr, new_pr, tl, user, now, quiet_mins, disabled).active.contains(r)
            ==> spec_fired(r, prev_pr, new_pr, tl, user, now, quiet_mins, (prev_state is None),
                seen_before(prev_state), disabled),
{
}

/// Once no review requests changes any more, the changes-requested reason is
/// active only when its rule fired on that poll.
pub proof fn lemma_changes_request_cleared(
    prev_state: Option<AttentionStateView>,
    prev_pr: Option<PullRequest>,
    new_pr: PullRequest,
    tl: Seq<TimelineEvent>,
    user: Seq<char>,
    now: Timestamp,
    quiet_mins: int,
    disabled: Set<TriggerReason>,
)
    requires
        !spec_has_reviewer_status(new_pr, "CHANGES_REQUESTED"@),
    ensures
        spec_evaluate(prev_state, prev_pr, new_pr, tl, user, now, quiet_mins, disabled).active
            .contains(TriggerReason::ChangesRequested)
            ==> spec_fired(TriggerReason::ChangesRequested, prev_pr, new_pr, tl, user, now, quiet_mins,
                prev_state is None, seen_before(prev_state), disabled),
{
}

/// The user's comment on an open pull request counts as seeing it:
/// the pull request is seen at that poll, and every reason still active
/// fired on that same poll.
pub proof fn lemma_user_activity_clears_all(
    s: AttentionStateView,
    prev_pr: Option<PullRequest>,
    new_pr: PullRequest,
    tl: Seq<TimelineEvent>,
    user: Seq<char>,
    now: Timestamp,
    quiet_mins: int,
    disabled: Set<TriggerReason>,
    r: TriggerReason,
)
    requires
        new_pr.status == PRStatus::Open,
        spec_user_activity(new_pr, tl, user, false, s.last_seen_at),
    ensures
        spec_evaluate(Some(s), prev_pr, new_pr, tl, user, now, quiet_mins, disabled).last_seen_at == Some(now),
        spec_evaluate(Some(s), prev_pr, new_pr, tl, user, now, quiet_mins, disabled).active.contains(r)
            ==> spec_fired(r, prev_pr, new_pr, tl, user, now, quiet_mins, false, s.last_seen_at, disabled),
{
}

/// On first appearance the state-based triggers fire on the current state:
/// failing CI, requested changes and a merge conflict on the user's own open
/// pull request, and a review request for the user on another's, each put
/// their reason in the set unless the rule is disabled (or a re-review request
/// takes the review request's place).
pub proof fn lemma_first_appearance_fires(
    prev_pr: Option<PullRequest>,
    new_pr: PullRequest,
    tl: Seq<TimelineEvent>,
    user: Seq<char>,
    now: Timestamp,
    quiet_mins: int,
    disabled: Set<TriggerReason>,
    r: TriggerReason,
)
    requires
        new_pr.status == PRStatus::Open,
        !disabled.contains(r),
        (new_pr.author@ == user && r == TriggerReason::CiFailed && new_pr.ci_status == CIStatus::Failing)
            || (new_pr.author@ == user && r == TriggerReason::ChangesRequested
                && new_pr.review_status == ReviewStatus::ChangesRequested)
            || (new_pr.author@ == user && r == TriggerReason::MergeConflict
                && new_pr.mergeable == MergeableStatus::Conflicting)
            || (new_pr.author@ != user && r == TriggerReason::ReviewRequested
                && spec_list_has(new_pr.requested_reviewers@, user)
                && !spec_fired(TriggerReason::ReReviewRequested, prev_pr, new_pr, tl, user, now, quiet_mins,
                    true, None, disabled)),
    ensures
        spec_evaluate(None, prev_pr, new_pr, tl, user, now, quiet_mins, disabled).active.contains(r),
{
}

/// A review request and a re-review request are never active together: if
/// they were not both active before a poll, they are not both active after it.
pub proof fn lemma_review_reasons_exclusive(
    prev_state: Option<AttentionStateView>,
    prev_pr: Option<PullRequest>,
    new_pr: PullRequest,
    tl: Seq<TimelineEvent>,
    user: Seq<char>,
    now: Timestamp,
    quiet_mins: int,
    disabled: Set<TriggerReason>,
)
    requires
        prev_state matches Some(s) ==> !(s.active.contains(TriggerReason::ReviewRequested)
            && s.active.contains(TriggerReason::ReReviewRequested)),
    ensures
        !(spec_evaluate(prev_state, prev_pr, new_pr, tl, user, now, quiet_mins, disabled).active
            .contains(TriggerReason::ReviewRequested)
        && spec_evaluate(prev_state, prev_pr, new_pr, tl, user, now, quiet_mins, disabled).active
            .contains(TriggerReason::ReReviewRequested)),
{
}

/// The latest comment time of a timeline is no earlier than the time of any
/// of its comments whose time parses.
proof fn lemma_latest_comment_covers(tl: Seq<TimelineEvent>, i: int)
    requires
        0 <= i < tl.len(),
        spec_is_comment(tl[i]),
        spec_event_ts(tl[i]) is Some,
    ensures
        spec_latest_comment_ts(tl) matches Some(l) && !l.spec_before(spec_event_ts(tl[i])->0),
    decreases tl.len(),
{
    if i < tl.len() - 1 {
        lemma_latest_comment_covers(tl.drop_last(), i);
        assert(tl.drop_last()[i] == tl[i]);
    }
}

/// The time of the latest comment never moves back: after a poll it is no
/// earlier than the one known before, and no earlier than any comment of the
/// polled timeline whose time parses.
pub proof fn lemma_last_comment_never_moves_back(
    prev_state: Option<AttentionStateView>,
    prev_pr: Option<PullRequest>,
    new_pr: PullRequest,
    tl: Seq<TimelineEvent>,
    user: Seq<char>,
    now: Timestamp,
    quiet_mins: int,
    disabled: Set<TriggerReason>,
)
    ensures
        (prev_state matches Some(s) && s.last_comment_at is Some) ==> (
            spec_evaluate(prev_state, prev_pr, new_pr, tl, user, now, quiet_mins, disabled).last_comment_at
                matches Some(x) && !x.spec_before(prev_state->0.last_comment_at->0)),
        forall|i: int| 0 <= i < tl.len() && spec_is_comment(#[trigger] tl[i]) && spec_event_ts(tl[i]) is Some
            ==> (spec_evaluate(prev_state, prev_pr, new_pr, tl, user, now, quiet_mins, disabled).last_comment_at
                matches Some(x) && !x.spec_before(spec_event_ts(tl[i])->0)),
{
    assert forall|i: int| 0 <= i < tl.len() && spec_is_comment(#[trigger] tl[i]) && spec_event_ts(tl[i]) is Some
        implies (spec_evaluate(prev_state, prev_pr, new_pr, tl, user, now, quiet_mins, disabled).last_comment_at
            matches Some(x) && !x.spec_before(spec_event_ts(tl[i])->0)) by {
        lemma_latest_comment_covers(tl, i);
    }
}

/// A re-request of the user's review fires: on an open pull request of
/// someone else, when the timeline holds a review submitted by the user (at
/// any time) and a review request for the user made after the user last saw
/// the pull request (any request, on its first appearance), the state after
/// the poll holds `ReReviewRequested`, unless that rule is disabled.
pub proof fn lemma_re_request_after_review_fires(
    prev_state: Option<AttentionStateView>,
    prev_pr: Option<PullRequest>,
    new_pr: PullRequest,
    tl: Seq<TimelineEvent>,
    user: Seq<char>,
    now: Timestamp,
    quiet_mins: int,
    disabled: Set<TriggerReason>,
    review: int,
    request: int,
)
    requires
        new_pr.status == PRStatus::Open,
        new_pr.author@ != user,
        !disabled.contains(TriggerReason::ReReviewRequested),
        0 <= review < tl.len(),
        tl[review].event_type@ == "PullRequestReview"@,
        tl[review].actor@ == user,
        0 <= request < tl.len(),
        tl[request].event_type@ == "ReviewRequestedEvent"@,
        tl[request].reviewer_login matches Some(l) && l@ == user,
        prev_state matches Some(s) ==> (s.last_seen_at matches Some(seen) ==> (
            spec_parse_rfc3339(tl[request].created_at@) matches Some(t) && seen.spec_before(t))),
    ensures
        spec_evaluate(prev_state, prev_pr, new_pr, tl, user, now, quiet_mins, disabled).active
            .contains(TriggerReason::ReReviewRequested),
{
    let is_first = prev_state is None;
    let last_seen = match prev_state {
        Some(s) => s.last_seen_at,
        None => None,
    };
    assert(spec_event_matches(EventQuery::UserReview, tl[review], user, last_seen, is_first));
    assert(spec_event_matches(EventQuery::ReRequest, tl[request], user, last_seen, is_first));
}

/// A re-request does not fire without a new review request: after the first
/// appearance, when the user's review was not requested again since the user
/// last saw the pull request, a state without `ReReviewRequested` stays
/// without it.
pub proof fn lemma_no_re_request_without_new_request(
    s: AttentionStateView,
    prev_pr: Option<PullRequest>,
    new_pr: PullRequest,
    tl: Seq<TimelineEvent>,
    user: Seq<char>,
    now: Timestamp,
    quiet_mins: int,
    disabled: Set<TriggerReason>,
)
    requires
        !s.active.contains(TriggerReason::ReReviewRequested),
        s.last_seen_at is Some,
        forall|k: int| 0 <= k < tl.len() && #[trigger] tl[k].event_type@ == "ReviewRequestedEvent"@
            && (tl[k].reviewer_login matches Some(l) && l@ == user)
            ==> !(spec_parse_rfc3339(tl[k].created_at@) matches Some(t) && s.last_seen_at->0.spec_before(t)),
    ensures
        !spec_evaluate(Some(s), prev_pr, new_pr, tl, user, now, quiet_mins, disabled).active
            .contains(TriggerReason::ReReviewRequested),
{
    assert forall|k: int| 0 <= k < tl.len() implies !#[trigger] spec_event_matches(EventQuery::ReRequest, tl[k], user,
        s.last_seen_at, false) by {
        if tl[k].event_type@ == "ReviewRequestedEvent"@ && (tl[k].reviewer_login matches Some(l) && l@ == user) {
        }
    }
}

/// On the user's own open pull request, a change into a failing CI
/// status, a changes-requested review status or a merge conflict since the
/// previous poll makes the matching reason active, unless it is disabled.
pub proof fn lemma_own_transitions_fire(
    prev_state: Option<AttentionStateView>,
    prev_pr: PullRequest,
    new_pr: PullRequest,
    tl: Seq<TimelineEvent>,
    user: Seq<char>,
    now: Timestamp,
    quiet_mins: int,
    disabled: Set<TriggerReason>,
)
    requires
        new_pr.status == PRStatus::Open,
        new_pr.author@ == user,
    ensures
        new_pr.ci_status == CIStatus::Failing && prev_pr.ci_status != CIStatus::Failing
            && !disabled.contains(TriggerReason::CiFailed)
            ==> spec_evaluate(prev_state, Some(prev_pr), new_pr, tl, user, now, quiet_mins, disabled).active
                .contains(TriggerReason::CiFailed),
        new_pr.review_status == ReviewStatus::ChangesRequested
            && prev_pr.review_status != ReviewStatus::ChangesRequested
            && !disabled.contains(TriggerReason::ChangesRequested)
            ==> spec_evaluate(prev_state, Some(prev_pr), new_pr, tl, user, now, quiet_mins, disabled).active
                .contains(TriggerReason::ChangesRequested),
        new_pr.mergeable == MergeableStatus::Conflicting && prev_pr.mergeable != MergeableStatus::Conflicting
            && !disabled.contains(TriggerReason::MergeConflict)
            ==> spec_evaluate(prev_state, Some(prev_pr), new_pr, tl, user, now, quiet_mins, disabled).active
                .contains(TriggerReason::MergeConflict),
{
}

/// On someone else's pull request, after its first appearance, a comment by
/// someone other than the user that holds "@" and the user's login, made
/// after the user last saw the pull request, makes `Mentioned` active,
/// unless it is disabled.
pub proof fn lemma_mention_fires(
    s: AttentionStateView,
    prev_pr: Option<PullRequest>,
    new_pr: PullRequest,
    tl: Seq<TimelineEvent>,
    user: Seq<char>,
    now: Timestamp,
    quiet_mins: int,
    disabled: Set<TriggerReason>,
    k: int,
)
    requires
        new_pr.status == PRStatus::Open,
        new_pr.author@ != user,
        !disabled.contains(TriggerReason::Mentioned),
        0 <= k < tl.len(),
        tl[k].event_type@ == "IssueComment"@ || tl[k].event_type@ == "PullRequestReview"@,
        tl[k].actor@ != user,
        tl[k].content matches Some(c) && seq_contains(c@, seq!['@'] + user),
        s.last_seen_at matches Some(seen) ==> (
            spec_parse_rfc3339(tl[k].created_at@) matches Some(t) && seen.spec_before(t)),
    ensures
        spec_evaluate(Some(s), prev_pr, new_pr, tl, user, now, quiet_mins, disabled).active
            .contains(TriggerReason::Mentioned),
{
    assert(spec_event_matches(EventQuery::Mention, tl[k], user, s.last_seen_at, false));
}

} // verus!
