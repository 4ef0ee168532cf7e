use chrono::{Duration, Utc};
use ghwatch::domain::attention::AttentionState;
use ghwatch::domain::lifecycle::{is_unread, should_auto_unfollow, should_auto_unfollow_at};
use ghwatch::domain::pr::{CIStatus, MergeableStatus, PRStatus, PullRequest, ReviewStatus};
use ghwatch::domain::pr_list::PRList;
use ghwatch::domain::rules::needs_attention;
use ghwatch::domain::attention::parse_ts;
use ghwatch::notify::dispatcher::{NotificationDispatcher, NotificationEvent};
use ghwatch::config::{AppConfig, GroupMode};
use ghwatch::domain::pr_list::get_grouped_items;

fn pr_with(id: &str, author: &str, repo: &str, created_at: &str, updated_at: &str) -> PullRequest {
    PullRequest {
        id: id.to_string(),
        number: 1,
        title: "Test".to_string(),
        author: author.to_string(),
        repo: repo.to_string(),
        status: PRStatus::Open,
        created_at: created_at.to_string(),
        updated_at: updated_at.to_string(),
        additions: 0,
        deletions: 0,
        review_status: ReviewStatus::Pending,
        comment_count: 0,
        unresolved_count: 0,
        total_resolvable_count: 0,
        conversational_count: 0,
        ci_status: CIStatus::Passing,
        mergeable: MergeableStatus::Unknown,
        head_ref: String::new(),
        body: String::new(),
        url: String::new(),
        requested_reviewers: vec![],
        reviewers: vec![],
        is_draft: false,
        matched_queries: Vec::new(),
        last_seen_at: None,
        last_seen_unresolved_count: 0,
        last_seen_total_resolvable_count: 0,
        last_seen_conversational_count: 0,
        attention_state: AttentionState::default(),
    }
}

#[test]
fn test_is_unread() {
    let mut pr = pr_with("1", "alice", "repo", "2024-05-01T10:00:00Z", "2024-05-01T11:00:00Z");
    assert!(is_unread(&pr));

    pr.last_seen_at = Some("2024-05-01T10:30:00Z".to_string());
    assert!(is_unread(&pr)); // updated at 11:00 > seen at 10:30

    pr.last_seen_at = Some("2024-05-01T11:30:00Z".to_string());
    assert!(!is_unread(&pr)); // updated at 11:00 < seen at 11:30
}

#[test]
fn test_should_auto_unfollow() {
    let mut pr = pr_with("1", "alice", "repo", "2024-05-01T10:00:00Z", "2024-05-01T11:00:00Z");

    // Open PR never unfollows
    pr.status = PRStatus::Open;
    assert!(!should_auto_unfollow(&pr, 0));

    // Terminal PR with 0 timeout unfollows immediately
    pr.status = PRStatus::Merged;
    pr.updated_at = Utc::now().to_rfc3339();
    assert!(should_auto_unfollow(&pr, 0));

    // Terminal PR with timeout
    let now = Utc::now();
    pr.updated_at = (now - Duration::minutes(10)).to_rfc3339();
    assert!(should_auto_unfollow(&pr, 5));
    assert!(!should_auto_unfollow(&pr, 15));
}

#[test]
fn test_should_auto_unfollow_at_fixed_time() {
    let mut pr = pr_with("1", "alice", "repo", "", "2024-05-01T11:00:00Z");
    pr.status = PRStatus::Closed;
    let now = parse_ts("2024-05-01T12:00:00Z").unwrap();
    assert!(should_auto_unfollow_at(&pr, 60, now));
    assert!(!should_auto_unfollow_at(&pr, 61, now));
    pr.updated_at = "not a date".to_string();
    assert!(!should_auto_unfollow_at(&pr, 0, now));
}

#[test]
fn test_pr_creation() {
    let pr = PullRequest {
        id: "node_123".to_string(),
        number: 42,
        title: "Fix bug in parser".to_string(),
        author: "alice".to_string(),
        repo: "org/repo".to_string(),
        status: PRStatus::Open,
        created_at: "2024-05-01T10:00:00Z".to_string(),
        updated_at: "2024-05-01T11:00:00Z".to_string(),
        additions: 100,
        deletions: 50,
        review_status: ReviewStatus::Pending,
        comment_count: 3,
        unresolved_count: 1,
        total_resolvable_count: 2,
        conversational_count: 1,
        ci_status: CIStatus::Passing,
        mergeable: MergeableStatus::Mergeable,
        head_ref: "sha123".to_string(),
        body: "Detailed description".to_string(),
        url: "https://github.com/org/repo/pull/42".to_string(),
        requested_reviewers: vec!["bob".to_string()],
        reviewers: vec![],
        is_draft: false,
        matched_queries: Vec::new(),
        last_seen_at: None,
        last_seen_unresolved_count: 0,
        last_seen_total_resolvable_count: 0,
        last_seen_conversational_count: 0,
        attention_state: AttentionState::default(),
    };

    assert_eq!(pr.number, 42);
    assert_eq!(pr.author, "alice");
}

#[test]
fn test_changes_requested() {
    let mut pr = pr_with("1", "alice", "repo", "", "");
    pr.author = "me".to_string();
    pr.review_status = ReviewStatus::ChangesRequested;
    assert!(needs_attention(&pr, "me"));
    assert!(!needs_attention(&pr, "other"));
}

#[test]
fn test_ci_failed() {
    let mut pr = pr_with("1", "alice", "repo", "", "");
    pr.author = "me".to_string();
    pr.ci_status = CIStatus::Failing;
    assert!(needs_attention(&pr, "me"));
    assert!(!needs_attention(&pr, "other"));
}

#[test]
fn test_pending_review() {
    let mut pr = pr_with("1", "alice", "repo", "", "");
    pr.requested_reviewers = vec!["me".to_string()];
    assert!(needs_attention(&pr, "me"));
    assert!(!needs_attention(&pr, "alice"));
}

#[test]
fn test_navigation() {
    let mut list = PRList::new(vec![pr_with("1", "alice", "repo", "", ""), pr_with("2", "alice", "repo", "", "")]);
    assert_eq!(list.selected_index(), 0);
    list.select_next();
    assert_eq!(list.selected_index(), 1);
    list.select_next();
    assert_eq!(list.selected_index(), 1);
    list.select_prev();
    assert_eq!(list.selected_index(), 0);
}

#[test]
fn test_set_prs_maintains_selection() {
    let mut list = PRList::new(vec![pr_with("1", "alice", "repo", "", ""), pr_with("2", "alice", "repo", "", "")]);
    list.select_next();
    assert_eq!(list.selected_index(), 1);

    list.set_prs(vec![pr_with("2", "alice", "repo", "", ""), pr_with("1", "alice", "repo", "", "")]);
    assert_eq!(list.selected_index(), 0); // "2" moved to index 0
}

#[test]
fn test_set_prs_clamps_when_selected_is_gone() {
    let mut list = PRList::new(vec![
        pr_with("1", "alice", "repo", "", ""),
        pr_with("2", "alice", "repo", "", ""),
        pr_with("3", "alice", "repo", "", ""),
    ]);
    list.set_selected_index(2);
    list.set_prs(vec![pr_with("4", "alice", "repo", "", "")]);
    assert_eq!(list.selected_index(), 0);
}

#[test]
fn test_remove_selected_and_insert_at_front() {
    let mut list = PRList::new(vec![pr_with("1", "alice", "repo", "", ""), pr_with("2", "alice", "repo", "", "")]);
    list.set_selected_index(1);
    let removed = list.remove_selected().unwrap();
    assert_eq!(removed.id, "2");
    assert_eq!(list.selected_index(), 0);
    list.insert_at_front(removed);
    assert_eq!(list.items()[0].id, "2");
    assert_eq!(list.items().len(), 2);
    let mut empty = PRList::new(vec![]);
    assert!(empty.remove_selected().is_none());
}

#[test]
fn test_notification_logic_disabled() {
    let mut dispatcher = NotificationDispatcher::new(false);
    let pr = pr_with("1", "alice", "org/repo", "now", "now");
    assert!(dispatcher.notify_new_pr(&pr).is_empty());
    assert!(dispatcher.notify_pr_update(&pr, &pr).is_empty());
}

#[test]
fn test_notification_deduplication() {
    let mut dispatcher = NotificationDispatcher::new(true);
    let pr = pr_with("1", "alice", "org/repo", "now", "now");

    // First time should notify
    assert!(dispatcher.should_notify(&pr.id, NotificationEvent::NewPr));
    // Second time should NOT notify (persists across cycles)
    assert!(!dispatcher.should_notify(&pr.id, NotificationEvent::NewPr));

    // clear_cycle should NOT clear history now
    dispatcher.clear_cycle();
    assert!(!dispatcher.should_notify(&pr.id, NotificationEvent::NewPr));

    // clear_history should clear it
    dispatcher.clear_history();
    assert!(dispatcher.should_notify(&pr.id, NotificationEvent::NewPr));
}

#[test]
fn test_notification_texts_and_once_per_kind() {
    let mut dispatcher = NotificationDispatcher::new(true);
    let mut old = pr_with("7", "alice", "org/repo", "now", "now");
    old.number = 12;
    old.title = "Parser".to_string();
    let new_notes = dispatcher.notify_new_pr(&old);
    assert_eq!(new_notes.len(), 1);
    assert_eq!(new_notes[0].title, "New PR: #12");
    assert_eq!(new_notes[0].body, "Parser by alice");
    assert!(dispatcher.notify_new_pr(&old).is_empty());

    let mut new = pr_with("7", "alice", "org/repo", "now", "now");
    new.number = 12;
    new.title = "Parser".to_string();
    new.review_status = ReviewStatus::Approved;
    new.ci_status = CIStatus::Failing;
    new.comment_count = 3;
    let notes = dispatcher.notify_pr_update(&old, &new);
    assert_eq!(notes.len(), 3);
    assert_eq!(notes[0].title, "Review Update: #12");
    assert_eq!(notes[0].body, "Parser is now Approved");
    assert_eq!(notes[1].title, "CI Update: #12");
    assert_eq!(notes[1].body, "Parser CI is now Failing");
    assert_eq!(notes[2].title, "New Comment: #12");
    assert_eq!(notes[2].body, "Parser has 3 new comments");
    // Each kind is notified once per pull request.
    assert!(dispatcher.notify_pr_update(&old, &new).is_empty());
}

#[test]
fn test_grouping_keeps_list_order() {
    let prs = vec![
        pr_with("1", "alice", "org/a", "", ""),
        pr_with("2", "bob", "org/b", "", ""),
        pr_with("3", "alice", "org/a", "", ""),
    ];
    let mut config = AppConfig::default();
    config.group_by = GroupMode::Repo;
    let groups = get_grouped_items(&prs, &config);
    let flat: Vec<&str> = groups.iter().flat_map(|g| g.prs.iter().map(|p| p.id.as_str())).collect();
    assert_eq!(flat, vec!["1", "2", "3"]);
    assert_eq!(groups.len(), 3);
    assert_eq!(groups[0].name, "org/a");
    config.group_by = GroupMode::Ungrouped;
    let groups = get_grouped_items(&prs, &config);
    assert_eq!(groups.len(), 1);
    assert_eq!(groups[0].name, "All PRs");
}
