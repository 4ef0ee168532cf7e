//! The earlier "needs attention" rule, used by the priority sort.
use vstd::prelude::*;
use crate::domain::pr::{PullRequest, ReviewStatus, CIStatus};
use crate::domain::attention::{spec_list_has, list_has};
use crate::util::text::str_eq;

verus! {

/// The pull request needs the user: changes were requested on it or its CI
/// fails while the user is its author, or the user is a requested person reviewing.
pub open spec fn spec_needs_attention(pr: PullRequest, user: Seq<char>) -> bool {
    ||| pr.author@ == user && pr.review_status == ReviewStatus::ChangesRequested
    ||| pr.author@ == user && pr.ci_status == CIStatus::Failing
    ||| spec_list_has(pr.requested_reviewers@, user)
}

/// Whether the pull request needs the user (see `spec_needs_attention`).
pub fn needs_attention(pr: &PullRequest, current_user: &str) -> (b: bool)
    ensures
        b == spec_needs_attention(*pr, current_user@),
{
    let mine = str_eq(pr.author.as_str(), current_user);
    let changes_requested = mine && pr.review_status == ReviewStatus::ChangesRequested;
    let ci_failed = mine && pr.ci_status == CIStatus::Failing;
    let pending_review = list_has(&pr.requested_reviewers, current_user);
    changes_requested || ci_failed || pending_review
}

} // verus!
