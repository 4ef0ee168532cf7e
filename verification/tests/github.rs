use ghwatch::github::client::{
    page_size, review_content, search_results, split_repo, NodeRead, ReplyError, SearchReply,
};
use ghwatch::github::models::{ci_status_from_upper, status_from_upper};
use ghwatch::domain::pr::{CIStatus, PRStatus, PullRequest, ReviewStatus};
use ghwatch::github::client::{map_timeline_event, thread_counts, GhCliClient};
use ghwatch::github::models::{
    RawAuthor, RawLabel, RawPullRequest, RawRepository, RawRequestedReviewer, RawReview, RawReviewRequest,
    RawRollupEntry, RawStatusCheckRollup, RawTimelineEvent,
};
use ghwatch::github::rate_limit::RateLimitTracker;
use ghwatch::domain::pr::RateLimitStatus;
use ghwatch::domain::time::Timestamp;
use ghwatch::github::call_log::{archive_needs_rotation, CallLog, GhCall};

fn raw_pr(id: &str, number: u32, url: &str) -> RawPullRequest {
    RawPullRequest {
        id: id.to_string(),
        number,
        title: "Test".to_string(),
        author: RawAuthor { login: "alice".to_string() },
        repository: None,
        head_repository: None,
        state: "OPEN".to_string(),
        created_at: "2024-05-01T10:00:00Z".to_string(),
        updated_at: "2024-05-01T10:00:00Z".to_string(),
        body: "Body".to_string(),
        comments_count: None,
        review_comments: None,
        unresolved_count: None,
        total_resolvable_count: None,
        additions: None,
        deletions: None,
        review_decision: None,
        mergeable: None,
        merge_state_status: None,
        status_check_rollup: None,
        head_ref_oid: None,
        url: url.to_string(),
        review_requests: None,
        latest_reviews: None,
        is_draft: false,
    }
}

#[test]
fn test_raw_to_pr_conversion() {
    let raw = RawPullRequest {
        id: "node_1".to_string(),
        number: 123,
        title: "Test PR".to_string(),
        author: RawAuthor { login: "alice".to_string() },
        repository: Some(RawRepository { name_with_owner: "org/repo".to_string() }),
        head_repository: None,
        state: "OPEN".to_string(),
        created_at: "2024-05-01T10:00:00Z".to_string(),
        updated_at: "2024-05-01T11:00:00Z".to_string(),
        body: "Body text".to_string(),
        comments_count: Some(5),
        review_comments: Some(2),
        unresolved_count: Some(1),
        total_resolvable_count: Some(2),
        additions: Some(10),
        deletions: Some(5),
        review_decision: Some("APPROVED".to_string()),
        mergeable: Some("MERGEABLE".to_string()),
        merge_state_status: Some("CLEAN".to_string()),
        status_check_rollup: Some(RawStatusCheckRollup::Summary { state: "SUCCESS".to_string() }),
        head_ref_oid: Some("sha123".to_string()),
        url: "https://github.com/org/repo/pull/123".to_string(),
        review_requests: Some(vec![RawReviewRequest {
            requested_reviewer: Some(RawRequestedReviewer {
                typename: "User".to_string(),
                login: Some("bob".to_string()),
            }),
        }]),
        latest_reviews: None,
        is_draft: false,
    };

    let pr: PullRequest = PullRequest::from_raw(raw);

    assert_eq!(pr.number, 123);
    assert_eq!(pr.author, "alice");
    assert_eq!(pr.repo, "org/repo");
    assert_eq!(pr.status, PRStatus::Open);
    assert_eq!(pr.review_status, ReviewStatus::Approved);
    assert_eq!(pr.ci_status, CIStatus::Passing);
    assert_eq!(pr.comment_count, 7);
    assert_eq!(pr.unresolved_count, 1);
    assert_eq!(pr.total_resolvable_count, 2);
    assert_eq!(pr.conversational_count, 5);
    assert_eq!(pr.additions, 10);
    assert_eq!(pr.deletions, 5);
    assert_eq!(pr.head_ref, "sha123");
    assert_eq!(pr.requested_reviewers, vec!["bob".to_string()]);
}

#[test]
fn test_deserialization_with_empty_status_rollup() {
    // An empty `statusCheckRollup` array: the rollup is an empty list.
    let rollup = RawStatusCheckRollup::List(vec![]);
    assert_eq!(rollup.state(), "EXPECTED");
}

#[test]
fn test_repo_fallback_from_url() {
    let mut raw = raw_pr("PR_123", 1, "https://github.com/kbjorklid/gh-notify-test/pull/1");
    raw.head_repository = Some(RawRepository { name_with_owner: "".to_string() });
    let pr = PullRequest::from_raw(raw);
    assert_eq!(pr.repo, "kbjorklid/gh-notify-test");
}

#[test]
fn test_parse_gh_search_prs_output() {
    let mut raw = raw_pr("PR_1", 1, "https://github.com/org/repo/pull/1");
    raw.title = "Fix bug".to_string();
    raw.repository = Some(RawRepository { name_with_owner: "org/repo".to_string() });
    raw.updated_at = "2024-05-01T11:00:00Z".to_string();
    raw.comments_count = Some(3);
    let pr = PullRequest::from_raw(raw);
    assert_eq!(pr.number, 1);
    assert_eq!(pr.author, "alice");
    assert_eq!(pr.repo, "org/repo");
    assert_eq!(pr.comment_count, 3);
}

#[test]
fn test_parse_user_provided_json() {
    let mut raw = raw_pr("PR_kwDOSZQ-mc7Z-0SB", 1, "https://github.com/kbjorklid/gh-notify-test/pull/1");
    raw.author = RawAuthor { login: "kbjorklid".to_string() };
    raw.repository = Some(RawRepository { name_with_owner: "kbjorklid/gh-notify-test".to_string() });
    raw.state = "open".to_string();
    raw.comments_count = Some(0);
    let pr = PullRequest::from_raw(raw);
    assert_eq!(pr.id, "PR_kwDOSZQ-mc7Z-0SB");
    assert_eq!(pr.number, 1);
    assert_eq!(pr.author, "kbjorklid");
    assert_eq!(pr.repo, "kbjorklid/gh-notify-test");
    assert_eq!(pr.status, PRStatus::Open);
}

fn make_raw(event: &str) -> RawTimelineEvent {
    RawTimelineEvent {
        node_id: Some(format!("NODE_{event}")),
        typename: event.to_string(),
        actor: Some(RawAuthor { login: "alice".to_string() }),
        created_at: Some("2024-01-01T10:00:00Z".to_string()),
        body: None,
        state: None,
        message: None,
        label: None,
    }
}

#[test]
fn test_map_timeline_event_commented_maps_to_issue_comment() {
    let mut raw = make_raw("commented");
    raw.body = Some("Ship it".to_string());
    let ev = map_timeline_event(raw);
    assert_eq!(ev.event_type, "IssueComment");
    assert_eq!(ev.content.as_deref(), Some("Ship it"));
    assert_eq!(ev.actor, "alice");
    assert_eq!(ev.id, "NODE_commented");
    assert_eq!(ev.created_at, "2024-01-01T10:00:00Z");
}

#[test]
fn test_map_timeline_event_reviewed_maps_to_pull_request_review() {
    let mut raw = make_raw("reviewed");
    raw.state = Some("approved".to_string());
    raw.body = Some("Nice work".to_string());
    let ev = map_timeline_event(raw);
    assert_eq!(ev.event_type, "PullRequestReview");
    assert_eq!(ev.content.as_deref(), Some("APPROVED: Nice work"));
}

#[test]
fn test_map_timeline_event_reviewed_no_body() {
    let mut raw = make_raw("reviewed");
    raw.state = Some("commented".to_string());
    let ev = map_timeline_event(raw);
    assert_eq!(ev.event_type, "PullRequestReview");
    assert_eq!(ev.content.as_deref(), Some("COMMENTED"));
}

#[test]
fn test_map_timeline_event_reviewed_state_uppercased() {
    let mut raw = make_raw("reviewed");
    raw.state = Some("changes_requested".to_string());
    let ev = map_timeline_event(raw);
    assert_eq!(ev.content.as_deref(), Some("CHANGES_REQUESTED"));
}

#[test]
fn test_map_timeline_event_committed_maps_to_commit() {
    let mut raw = make_raw("committed");
    raw.actor = None;
    raw.created_at = None;
    raw.message = Some("Fix the bug".to_string());
    let ev = map_timeline_event(raw);
    assert_eq!(ev.event_type, "Commit");
    assert_eq!(ev.content.as_deref(), Some("Fix the bug"));
    assert_eq!(ev.actor, "unknown");
    assert_eq!(ev.created_at, "");
}

#[test]
fn test_map_timeline_event_merged() {
    let ev = map_timeline_event(make_raw("merged"));
    assert_eq!(ev.event_type, "MergedEvent");
    assert_eq!(ev.content.as_deref(), Some("merged this pull request"));
}

#[test]
fn test_map_timeline_event_closed() {
    let ev = map_timeline_event(make_raw("closed"));
    assert_eq!(ev.event_type, "ClosedEvent");
    assert_eq!(ev.content.as_deref(), Some("closed this pull request"));
}

#[test]
fn test_map_timeline_event_reopened() {
    let ev = map_timeline_event(make_raw("reopened"));
    assert_eq!(ev.event_type, "ReopenedEvent");
    assert_eq!(ev.content.as_deref(), Some("reopened this pull request"));
}

#[test]
fn test_map_timeline_event_labeled() {
    let mut raw = make_raw("labeled");
    raw.label = Some(RawLabel { name: "bug".to_string() });
    let ev = map_timeline_event(raw);
    assert_eq!(ev.event_type, "LabeledEvent");
    assert_eq!(ev.content.as_deref(), Some("added label: bug"));
}

#[test]
fn test_map_timeline_event_unlabeled() {
    let mut raw = make_raw("unlabeled");
    raw.label = Some(RawLabel { name: "wip".to_string() });
    let ev = map_timeline_event(raw);
    assert_eq!(ev.event_type, "UnlabeledEvent");
    assert_eq!(ev.content.as_deref(), Some("removed label: wip"));
}

#[test]
fn test_map_timeline_event_unknown_passes_through() {
    let ev = map_timeline_event(make_raw("review_requested"));
    assert_eq!(ev.event_type, "review_requested");
    assert!(ev.content.is_none());
}

#[test]
fn test_rate_limit_tracker() {
    let mut tracker = RateLimitTracker::new();
    assert_eq!(tracker.get_remaining(), 5000);

    tracker.update(&RateLimitStatus { remaining: 100, limit: 5000, reset_at: 123_456 });

    assert_eq!(tracker.get_remaining(), 100);
    let status = tracker.get_status();
    assert_eq!(status.remaining, 100);
    assert_eq!(status.reset_at, 123_456);
}

#[test]
fn test_rollup_states() {
    let failing = RawStatusCheckRollup::List(vec![
        RawRollupEntry { conclusion: Some("SUCCESS".to_string()), status: Some("COMPLETED".to_string()) },
        RawRollupEntry { conclusion: Some("FAILURE".to_string()), status: Some("COMPLETED".to_string()) },
    ]);
    assert_eq!(failing.state(), "FAILURE");
    let summary = RawStatusCheckRollup::Summary { state: "PENDING".to_string() };
    assert_eq!(summary.state(), "PENDING");
}

#[test]
fn test_thread_counts_counts_unresolved() {
    let (total, unresolved) = thread_counts(&vec![Some(false), Some(true), None, Some(false)]);
    assert_eq!(unresolved, 2);
    assert_eq!(total, 4);
}

#[test]
fn test_client_starts_with_full_rate_limit() {
    let client = GhCliClient::new();
    assert_eq!(client.rate_limit.get_remaining(), 5000);
}

#[test]
fn test_review_content_uppercases_state() {
    // The review state goes through `str::to_uppercase`.
    let mut raw = RawTimelineEvent {
        node_id: None,
        typename: "reviewed".to_string(),
        actor: None,
        created_at: None,
        body: Some("ok".to_string()),
        state: Some("dismissed".to_string()),
        message: None,
        label: None,
    };
    let ev = map_timeline_event(raw);
    assert_eq!(ev.content.as_deref(), Some("DISMISSED: ok"));
    assert_eq!(ev.id, "");
    raw = RawTimelineEvent {
        node_id: Some("N".to_string()),
        typename: "reviewed".to_string(),
        actor: None,
        created_at: None,
        body: Some(String::new()),
        state: None,
        message: None,
        label: None,
    };
    let ev = map_timeline_event(raw);
    assert_eq!(ev.content.as_deref(), Some("COMMENTED: "));
}

#[test]
fn test_call_log_keeps_latest_hundred() {
    let mut log = CallLog::new();
    for i in 0..105u64 {
        log.record(GhCall {
            timestamp: Timestamp { secs: 0, nanos: 0 },
            command: format!("gh call {i}"),
            exit_code: 0,
            duration_ms: i,
            output: String::new(),
        });
    }
    assert_eq!(log.len(), 100);
    assert_eq!(log.newest(0).unwrap().command, "gh call 104");
    assert_eq!(log.newest(99).unwrap().command, "gh call 5");
    assert!(log.newest(100).is_none());
    assert!(!archive_needs_rotation(1024 * 1024));
    assert!(archive_needs_rotation(1024 * 1024 + 1));
}

#[test]
fn test_status_and_ci_status_from_uppercased_names() {
    assert_eq!(status_from_upper("OPEN"), PRStatus::Open);
    assert_eq!(status_from_upper("MERGED"), PRStatus::Merged);
    assert_eq!(status_from_upper("CLOSED"), PRStatus::Closed);
    assert_eq!(status_from_upper("open"), PRStatus::Closed);
    assert_eq!(ci_status_from_upper("SUCCESS"), CIStatus::Passing);
    assert_eq!(ci_status_from_upper("ERROR"), CIStatus::Failing);
    assert_eq!(ci_status_from_upper("FAILURE"), CIStatus::Failing);
    assert_eq!(ci_status_from_upper("PENDING"), CIStatus::Pending);
    assert_eq!(ci_status_from_upper("NEUTRAL"), CIStatus::Skipped);
}

#[test]
fn test_review_content_joins_state_and_text() {
    assert_eq!(review_content("APPROVED", &Some("Ship it".to_string())), "APPROVED: Ship it");
    assert_eq!(review_content("COMMENTED", &None), "COMMENTED");
}

fn raw_node(number: u32) -> RawPullRequest {
    raw_pr(&format!("n{number}"), number, "https://github.com/o/r/pull/1")
}

#[test]
fn test_search_results_skips_null_nodes_in_order() {
    let nodes = vec![NodeRead::Decoded(raw_node(1)), NodeRead::Null, NodeRead::Decoded(raw_node(3))];
    let prs = search_results(SearchReply::Json { errors: None, nodes: Some(nodes) }).unwrap();
    assert_eq!(prs.iter().map(|p| p.number).collect::<Vec<_>>(), vec![1, 3]);
}

#[test]
fn test_search_results_reports_errors_first() {
    let reply = SearchReply::Json {
        errors: Some("[{\"message\":\"bad\"}]".to_string()),
        nodes: Some(vec![NodeRead::Decoded(raw_node(1))]),
    };
    assert_eq!(search_results(reply).unwrap_err(), ReplyError::GraphQl("[{\"message\":\"bad\"}]".to_string()));
}

#[test]
fn test_search_results_without_nodes_is_unexpected() {
    let reply = SearchReply::Json { errors: None, nodes: None };
    assert_eq!(search_results(reply).unwrap_err(), ReplyError::Unexpected);
}

#[test]
fn test_search_results_not_json_and_undecodable_node() {
    let reply = SearchReply::NotJson("expected value".to_string());
    assert_eq!(search_results(reply).unwrap_err(), ReplyError::NotJson("expected value".to_string()));
    let nodes = vec![NodeRead::Decoded(raw_node(1)), NodeRead::Undecodable("missing field".to_string())];
    let reply = SearchReply::Json { errors: None, nodes: Some(nodes) };
    assert_eq!(search_results(reply).unwrap_err(), ReplyError::Undecodable("missing field".to_string()));
}

#[test]
fn test_page_size_defaults_to_one_hundred() {
    assert_eq!(page_size(None), 100);
    assert_eq!(page_size(Some(20)), 20);
}

#[test]
fn test_split_repo_at_first_slash() {
    assert_eq!(split_repo("org/repo"), Some(("org".to_string(), "repo".to_string())));
    assert_eq!(split_repo("a/b/c"), Some(("a".to_string(), "b/c".to_string())));
    assert_eq!(split_repo("noslash"), None);
}
