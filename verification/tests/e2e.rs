use ghwatch::app::events::AppEvent;
use ghwatch::app::keys::{Key, KeyCode};
use ghwatch::app::{App, AppMode, Effect, SortMode};
use ghwatch::config::{AppConfig, GroupMode};
use ghwatch::domain::attention::{AttentionState, ReasonSet, TriggerReason};
use ghwatch::domain::pr::{CIStatus, MergeableStatus, PRStatus, PullRequest, ReviewStatus, TimelineEvent};
use ghwatch::domain::attention::parse_ts;
use ghwatch::domain::time::Timestamp;
use ghwatch::ui::search::filter_prs;

fn now() -> Timestamp {
    parse_ts("2024-05-02T12:00:00Z").unwrap()
}

fn key(c: char) -> Key {
    Key { code: KeyCode::Char(c), ctrl: false }
}

fn code(k: KeyCode) -> Key {
    Key { code: k, ctrl: false }
}

fn create_test_pr(id: &str, number: u32) -> PullRequest {
    PullRequest {
        id: id.to_string(),
        number,
        title: format!("PR #{number}"),
        author: "alice".to_string(),
        repo: "org/repo".to_string(),
        status: PRStatus::Open,
        created_at: "2024-05-01T10:00:00Z".to_string(),
        updated_at: "2024-05-01T10:00:00Z".to_string(),
        additions: 10,
        deletions: 5,
        review_status: ReviewStatus::Pending,
        comment_count: 0,
        unresolved_count: 0,
        total_resolvable_count: 0,
        conversational_count: 0,
        ci_status: CIStatus::Passing,
        mergeable: MergeableStatus::Unknown,
        head_ref: "sha123".to_string(),
        body: "Body".to_string(),
        url: String::new(),
        requested_reviewers: vec![],
        reviewers: vec![],
        is_draft: false,
        matched_queries: Vec::new(),
        last_seen_at: None,
        last_seen_unresolved_count: 0,
        last_seen_total_resolvable_count: 0,
        last_seen_conversational_count: 0,
        attention_state: AttentionState::default(),
    }
}

fn app_with(prs: Vec<PullRequest>, archived: Vec<PullRequest>) -> App {
    App::new(AppConfig::default(), prs, archived, true)
}

fn with_reasons(reasons: &[TriggerReason]) -> AttentionState {
    AttentionState { active_reasons: ReasonSet::from_slice(reasons), last_seen_at: None, last_comment_at: None }
}

fn poll(app: &mut App, prs: Vec<PullRequest>) -> Vec<Effect> {
    app.handle_app_event(AppEvent::PrsUpdated { query_name: "test".to_string(), prs }, now(), 0)
}

fn find<'a>(app: &'a App, id: &str) -> &'a PullRequest {
    app.pr_list.items().iter().find(|p| p.id == id).unwrap()
}

#[test]
fn test_navigation_and_mark_as_read() {
    let pr1 = create_test_pr("1", 1);
    let pr2 = create_test_pr("2", 2);
    let mut app = app_with(vec![pr1.duplicate(), pr2.duplicate()], vec![]);

    assert_eq!(app.pr_list.selected_index(), 0);
    assert_eq!(app.mode, AppMode::Normal);

    // Move down
    app.handle_key(key('j'), now(), 0);
    assert_eq!(app.pr_list.selected_index(), 1);

    // Mark as read
    app.handle_key(key('m'), now(), 0);
    assert!(app.pr_list.items()[1].last_seen_at.is_some());
    assert_eq!(app.pr_list.items()[1].last_seen_unresolved_count, 0);

    // Update PR with comments
    let mut pr2_updated = app.pr_list.items()[1].duplicate();
    pr2_updated.unresolved_count = 2;
    pr2_updated.total_resolvable_count = 2;
    pr2_updated.conversational_count = 1;
    let first = app.pr_list.items()[0].duplicate();
    app.pr_list.set_prs(vec![first, pr2_updated]);

    // Mark as read again
    app.handle_key(key('m'), now(), 0);
    assert_eq!(app.pr_list.items()[1].last_seen_unresolved_count, 2);
    assert_eq!(app.pr_list.items()[1].last_seen_total_resolvable_count, 2);
    assert_eq!(app.pr_list.items()[1].last_seen_conversational_count, 1);

    // Sync from GitHub
    let mut pr2_github = pr2.duplicate();
    pr2_github.unresolved_count = 3;
    pr2_github.total_resolvable_count = 3;
    pr2_github.conversational_count = 2;
    pr2_github.updated_at = "2024-05-01T12:00:00Z".to_string();
    poll(&mut app, vec![pr1.duplicate(), pr2_github]);

    let pr2_final = find(&app, "2");
    assert_eq!(pr2_final.last_seen_unresolved_count, 2);
    assert_eq!(pr2_final.last_seen_total_resolvable_count, 2);
    assert_eq!(pr2_final.last_seen_conversational_count, 1);
}

#[test]
fn test_search_filtering() {
    let pr1 = create_test_pr("1", 1);
    let mut pr2 = create_test_pr("2", 2);
    pr2.title = "Search Me".to_string();
    let mut app = app_with(vec![pr1, pr2], vec![]);

    app.handle_key(key('/'), now(), 0);
    assert_eq!(app.mode, AppMode::Search);

    app.handle_key(key('s'), now(), 0);
    app.handle_key(key('e'), now(), 0);
    app.handle_key(key('a'), now(), 0);
    assert_eq!(app.input_buffer, "sea");

    let filtered = filter_prs(app.pr_list.items(), &app.input_buffer);
    assert_eq!(filtered.len(), 1);
    assert_eq!(filtered[0].id, "2");
}

#[test]
fn test_sorting() {
    let pr1 = create_test_pr("1", 1);
    let mut pr2 = create_test_pr("2", 2);
    pr2.updated_at = "2024-05-02T10:00:00Z".to_string();
    let mut app = app_with(vec![pr1, pr2], vec![]);

    // Created, Priority, Repo, back to Updated
    for _ in 0..4 {
        app.handle_key(key('s'), now(), 0);
    }
    // Default sort is Updated (descending)
    assert_eq!(app.pr_list.items()[0].id, "2");
    assert_eq!(app.pr_list.items()[1].id, "1");

    app.handle_key(key('s'), now(), 0);
    assert_eq!(app.sort_mode, SortMode::Created);
}

#[test]
fn test_priority_sorting() {
    let pr1 = create_test_pr("1", 1);
    let mut pr2 = create_test_pr("2", 2);
    pr2.ci_status = CIStatus::Failing;
    let mut app = app_with(vec![pr1, pr2], vec![]);
    app.config.current_user = "alice".to_string();

    app.handle_key(key('s'), now(), 0);
    app.handle_key(key('s'), now(), 0);
    assert_eq!(app.sort_mode, SortMode::Priority);

    // PR 2 needs attention (its author's CI fails), so it comes first.
    assert_eq!(app.pr_list.items()[0].id, "2");
    assert_eq!(app.pr_list.items()[1].id, "1");
}

#[test]
fn test_grouping_cycle() {
    let mut app = app_with(vec![], vec![]);
    assert_eq!(app.config.group_by, GroupMode::Ungrouped);

    let ctrl_g = Key { code: KeyCode::Char('g'), ctrl: true };
    app.handle_key(ctrl_g, now(), 0);
    assert_eq!(app.config.group_by, GroupMode::Repo);
    app.handle_key(ctrl_g, now(), 0);
    assert_eq!(app.config.group_by, GroupMode::Author);
}

#[test]
fn test_app_modes() {
    let mut app = app_with(vec![], vec![]);

    app.handle_key(key('?'), now(), 0);
    assert_eq!(app.mode, AppMode::Help);
    app.handle_key(code(KeyCode::Esc), now(), 0);
    assert_eq!(app.mode, AppMode::Normal);

    app.handle_key(code(KeyCode::Left), now(), 0);
    assert_eq!(app.mode, AppMode::Settings);
    app.handle_key(code(KeyCode::Esc), now(), 0);
    assert_eq!(app.mode, AppMode::Normal);

    app.handle_key(code(KeyCode::Right), now(), 0);
    assert_eq!(app.mode, AppMode::Archive);
}

#[test]
fn test_manual_follow() {
    let mut app = app_with(vec![], vec![]);

    app.handle_key(key('f'), now(), 0);
    assert_eq!(app.mode, AppMode::Follow);
    for c in "org/repo#1".chars() {
        app.handle_key(key(c), now(), 0);
    }
    let effects = app.handle_key(code(KeyCode::Enter), now(), 0);
    assert_eq!(app.mode, AppMode::Normal);
    assert!(effects.iter().any(|e| matches!(e, Effect::FollowPr(repo, 1) if repo == "org/repo")));

    // The fetched pull request arrives.
    app.handle_app_event(
        AppEvent::PrsUpdated { query_name: "manual".to_string(), prs: vec![create_test_pr("1", 1)] },
        now(),
        0,
    );
    assert_eq!(app.pr_list.items().len(), 1);
    assert_eq!(app.pr_list.items()[0].id, "1");
}

#[test]
fn test_archiving() {
    let mut app = app_with(vec![create_test_pr("1", 1)], vec![]);
    assert_eq!(app.pr_list.items().len(), 1);

    app.handle_key(key('u'), now(), 0);
    assert_eq!(app.pr_list.items().len(), 0);
}

#[test]
fn test_follow_from_archive() {
    let mut app = app_with(vec![], vec![create_test_pr("1", 1)]);

    app.handle_key(key('l'), now(), 0);
    assert_eq!(app.mode, AppMode::Archive);
    assert_eq!(app.archive_list.items().len(), 1);
    assert_eq!(app.pr_list.items().len(), 0);

    app.handle_key(key('f'), now(), 0);
    assert_eq!(app.archive_list.items().len(), 0, "PR should be gone from archive");
    assert_eq!(app.pr_list.items().len(), 1, "PR should be in active list");
    assert!(
        app.pr_list.items()[0].matched_queries.iter().any(|q| q == "manual"),
        "Followed PR should carry the 'manual' attribution so it survives the next poll"
    );
}

#[test]
fn test_detail_fetching_on_navigation() {
    let mut app = app_with(vec![create_test_pr("1", 1), create_test_pr("2", 2)], vec![]);

    let effects = app.handle_key(key('j'), now(), 0);
    assert!(effects.iter().any(|e| matches!(e, Effect::FetchDetails(repo, 2) if repo == "org/repo")));
}

#[test]
fn test_attention_ci_failed_fires_on_transition() {
    let mut pr1 = create_test_pr("1", 1);
    pr1.author = "testuser".to_string();
    pr1.ci_status = CIStatus::Passing;
    let mut app = app_with(vec![pr1.duplicate()], vec![]);
    app.config.current_user = "testuser".to_string();

    let mut pr1_failing = pr1.duplicate();
    pr1_failing.ci_status = CIStatus::Failing;
    pr1_failing.updated_at = "2024-05-01T11:00:00Z".to_string();
    app.is_first_sync = false;
    poll(&mut app, vec![pr1_failing]);

    assert!(
        find(&app, "1").attention_state.active_reasons.contains(&TriggerReason::CiFailed),
        "CiFailed should be in active_reasons after CI transitions to Failing"
    );
}

#[test]
fn test_attention_mentioned_fires_on_timeline_loaded() {
    let mut pr1 = create_test_pr("1", 1);
    pr1.author = "otheruser".to_string();
    let mut app = app_with(vec![pr1], vec![]);
    app.config.current_user = "testuser".to_string();

    let events = vec![TimelineEvent {
        id: "evt1".to_string(),
        event_type: "IssueComment".to_string(),
        actor: "otheruser".to_string(),
        created_at: "2024-05-01T12:00:00Z".to_string(),
        content: Some("Hey @testuser please review".to_string()),
        reviewer_login: None,
    }];
    app.handle_app_event(AppEvent::TimelineLoaded { repo: "org/repo".to_string(), pr_number: 1, events }, now(), 0);

    assert!(
        find(&app, "1").attention_state.active_reasons.contains(&TriggerReason::Mentioned),
        "Mentioned should be in active_reasons after timeline mentions @testuser"
    );
}

#[test]
fn test_attention_mark_seen_clears_active_reasons() {
    let mut pr1 = create_test_pr("1", 1);
    pr1.attention_state = with_reasons(&[TriggerReason::CiFailed]);
    let mut app = app_with(vec![pr1], vec![]);
    assert!(app.pr_list.items()[0].attention_state.active_reasons.contains(&TriggerReason::CiFailed));

    app.handle_key(key('m'), now(), 0);

    let pr = &app.pr_list.items()[0];
    assert!(pr.attention_state.active_reasons.is_empty(), "active_reasons should be empty after mark-as-seen");
    assert!(pr.attention_state.last_seen_at.is_some(), "last_seen_at should be set");
}

#[test]
fn test_attention_archive_clears_active_reasons() {
    let mut pr1 = create_test_pr("1", 1);
    pr1.attention_state = with_reasons(&[TriggerReason::ReviewRequested]);
    let mut app = app_with(vec![pr1], vec![]);
    assert!(app.pr_list.items()[0].attention_state.active_reasons.contains(&TriggerReason::ReviewRequested));

    app.handle_key(key('u'), now(), 0);

    assert_eq!(app.pr_list.items().len(), 0, "PR should be removed from active list");
    assert!(
        app.archive_list.items()[0].attention_state.active_reasons.is_empty(),
        "active_reasons should be empty after archiving"
    );
}

#[test]
fn test_attention_state_field_exists_and_defaults() {
    let app = app_with(vec![create_test_pr("1", 1)], vec![]);
    let pr = &app.pr_list.items()[0];
    assert!(pr.attention_state.active_reasons.is_empty());
    assert!(pr.attention_state.last_seen_at.is_none());
}

#[test]
fn test_delete_from_archive() {
    let mut app = app_with(vec![], vec![create_test_pr("1", 1)]);

    app.handle_key(code(KeyCode::Right), now(), 0);
    assert_eq!(app.mode, AppMode::Archive);
    assert_eq!(app.archive_list.items().len(), 1);

    let effects = app.handle_key(key('d'), now(), 0);
    assert_eq!(app.archive_list.items().len(), 0);
    assert!(matches!(effects.as_slice(), [Effect::SaveArchive]));
}

fn openable_pr(reason: TriggerReason) -> PullRequest {
    let mut pr1 = create_test_pr("1", 1);
    pr1.url = "https://github.com/org/repo/pull/1".to_string();
    pr1.attention_state = with_reasons(&[reason]);
    pr1
}

#[test]
fn test_open_in_browser_marks_seen_when_configured() {
    let mut app = app_with(vec![openable_pr(TriggerReason::CiFailed)], vec![]);
    app.config.attention.open_in_browser_marks_seen = true;
    assert!(app.pr_list.items()[0].attention_state.active_reasons.contains(&TriggerReason::CiFailed));

    let effects = app.handle_key(key('o'), now(), 0);
    assert!(effects.iter().any(|e| matches!(e, Effect::OpenInBrowser(url) if url == "https://github.com/org/repo/pull/1")));
    assert!(app.pr_list.items()[0].attention_state.active_reasons.is_empty());
    assert!(app.pr_list.items()[0].attention_state.last_seen_at.is_some());
}

#[test]
fn test_open_in_browser_does_not_mark_seen_when_disabled() {
    let mut app = app_with(vec![openable_pr(TriggerReason::CiFailed)], vec![]);
    assert!(!app.config.attention.open_in_browser_marks_seen);

    app.handle_key(key('o'), now(), 0);
    assert!(
        app.pr_list.items()[0].attention_state.active_reasons.contains(&TriggerReason::CiFailed),
        "Attention state should NOT be cleared when open_in_browser_marks_seen is false"
    );
}

#[test]
fn e2e_test_converted_to_draft_clears_review_requested() {
    let mut pr1 = create_test_pr("1", 1);
    pr1.author = "otheruser".to_string();
    pr1.is_draft = false;
    pr1.attention_state = with_reasons(&[TriggerReason::ReviewRequested]);
    let mut app = app_with(vec![pr1.duplicate()], vec![]);
    app.config.current_user = "testuser".to_string();
    assert!(app.pr_list.items()[0].attention_state.active_reasons.contains(&TriggerReason::ReviewRequested));

    let mut pr1_draft = pr1.duplicate();
    pr1_draft.is_draft = true;
    pr1_draft.updated_at = "2024-05-01T11:00:00Z".to_string();
    app.is_first_sync = false;
    poll(&mut app, vec![pr1_draft]);

    assert!(
        !find(&app, "1").attention_state.active_reasons.contains(&TriggerReason::ReviewRequested),
        "ReviewRequested should be cleared after PR converts to draft"
    );
}

#[test]
fn test_open_in_browser_marks_seen_even_when_browser_fails() {
    // Opening is handed to the shell as an effect; the seen marking happens
    // before and whatever the browser does.
    let mut app = app_with(vec![openable_pr(TriggerReason::Approved)], vec![]);
    app.config.attention.open_in_browser_marks_seen = true;
    assert!(app.pr_list.items()[0].attention_state.active_reasons.contains(&TriggerReason::Approved));

    app.handle_key(key('o'), now(), 0);
    app.handle_app_event(AppEvent::Error("browser failed to open".to_string()), now(), 0);

    assert!(app.pr_list.items()[0].attention_state.active_reasons.is_empty());
    assert!(app.pr_list.items()[0].attention_state.last_seen_at.is_some());
}

#[test]
fn test_mark_seen_does_not_reset_comment_delta() {
    let mut pr1 = create_test_pr("1", 1);
    pr1.unresolved_count = 2;
    pr1.total_resolvable_count = 2;
    pr1.conversational_count = 3;
    pr1.attention_state = with_reasons(&[TriggerReason::CiFailed]);
    let mut app = app_with(vec![pr1], vec![]);

    app.handle_key(key('m'), now(), 0);

    let pr = &app.pr_list.items()[0];
    assert!(pr.attention_state.active_reasons.is_empty());
    assert_eq!(pr.unresolved_count, 2, "unresolved_count must not be zeroed by mark-as-seen");
    assert_eq!(pr.conversational_count, 3, "conversational_count must not be zeroed by mark-as-seen");
}

#[test]
fn test_active_reasons_survive_restart() {
    let mut pr1 = create_test_pr("1", 1);
    pr1.attention_state = with_reasons(&[TriggerReason::CiFailed, TriggerReason::Approved]);
    let app = app_with(vec![pr1], vec![]);

    let pr = &app.pr_list.items()[0];
    assert!(pr.attention_state.active_reasons.contains(&TriggerReason::CiFailed));
    assert!(pr.attention_state.active_reasons.contains(&TriggerReason::Approved));
}

#[test]
fn test_last_seen_at_survives_restart() {
    let seen_time = parse_ts("2024-05-01T10:30:00Z").unwrap();
    let mut pr1 = create_test_pr("1", 1);
    pr1.attention_state =
        AttentionState { active_reasons: ReasonSet::new(), last_seen_at: Some(seen_time), last_comment_at: None };
    let app = app_with(vec![pr1], vec![]);

    assert_eq!(app.pr_list.items()[0].attention_state.last_seen_at, Some(seen_time));
}

#[test]
fn test_last_comment_at_survives_restart() {
    let comment_time = parse_ts("2024-05-01T10:45:00Z").unwrap();
    let mut pr1 = create_test_pr("1", 1);
    pr1.attention_state =
        AttentionState { active_reasons: ReasonSet::new(), last_seen_at: None, last_comment_at: Some(comment_time) };
    let app = app_with(vec![pr1], vec![]);

    assert_eq!(app.pr_list.items()[0].attention_state.last_comment_at, Some(comment_time));
}

fn seen_scenario() -> (App, PullRequest) {
    let mut pr_a = create_test_pr("A", 100);
    pr_a.author = "alice".to_string();
    pr_a.ci_status = CIStatus::Failing;
    pr_a.matched_queries = vec!["main".to_string()];
    pr_a.attention_state = with_reasons(&[TriggerReason::CiFailed]);
    let mut app = app_with(vec![pr_a.duplicate()], vec![]);
    app.config.current_user = "alice".to_string();
    app.handle_app_event(AppEvent::InitialSyncDone, now(), 0);
    app.handle_key(key('m'), now(), 0);
    (app, pr_a)
}

#[test]
fn test_mark_seen_survives_poll_with_new_pr_added() {
    let (mut app, _) = seen_scenario();
    {
        let pr = find(&app, "A");
        assert!(pr.attention_state.active_reasons.is_empty());
        assert!(pr.attention_state.last_seen_at.is_some());
    }

    let mut pr_a_unchanged = find(&app, "A").duplicate();
    pr_a_unchanged.attention_state = AttentionState::default();
    pr_a_unchanged.last_seen_at = None;
    pr_a_unchanged.last_seen_unresolved_count = 0;
    pr_a_unchanged.last_seen_total_resolvable_count = 0;
    pr_a_unchanged.last_seen_conversational_count = 0;
    pr_a_unchanged.matched_queries = Vec::new();
    let mut pr_b = create_test_pr("B", 200);
    pr_b.author = "bob".to_string();
    app.handle_app_event(
        AppEvent::PrsUpdated { query_name: "main".to_string(), prs: vec![pr_a_unchanged, pr_b] },
        now(),
        0,
    );

    assert!(
        find(&app, "A").attention_state.active_reasons.is_empty(),
        "active_reasons must NOT come back after a poll that adds a different new PR"
    );
}

#[test]
fn test_mark_seen_survives_pr_disappear_and_reappear() {
    let (mut app, pr_a) = seen_scenario();
    assert!(app.pr_list.items()[0].attention_state.active_reasons.is_empty());

    app.handle_app_event(AppEvent::PrsUpdated { query_name: "main".to_string(), prs: vec![] }, now(), 0);

    let mut pr_a_return = pr_a.duplicate();
    pr_a_return.attention_state = AttentionState::default();
    pr_a_return.matched_queries = Vec::new();
    app.handle_app_event(AppEvent::PrsUpdated { query_name: "main".to_string(), prs: vec![pr_a_return] }, now(), 0);

    assert!(
        find(&app, "A").attention_state.active_reasons.is_empty(),
        "mark-as-seen must persist across transient drop/reappear"
    );
}

#[test]
fn test_archived_pr_not_readded_by_poll() {
    let pr1 = create_test_pr("1", 1);
    let mut app = app_with(vec![pr1.duplicate()], vec![]);
    app.is_first_sync = false;

    app.handle_key(key('u'), now(), 0);
    assert_eq!(app.pr_list.items().len(), 0);
    assert_eq!(app.archive_list.items().len(), 1);

    app.handle_app_event(AppEvent::PrsUpdated { query_name: "my-query".to_string(), prs: vec![pr1] }, now(), 0);
    assert_eq!(app.pr_list.items().len(), 0, "Archived PR must not reappear in active list");
    assert_eq!(app.archive_list.items().len(), 1, "Archive should still contain the PR");
}

#[test]
fn test_archived_pr_removed_from_active_list_on_poll() {
    let pr1 = create_test_pr("1", 1);
    let mut app = app_with(vec![pr1.duplicate()], vec![pr1.duplicate()]);
    app.is_first_sync = false;
    assert_eq!(app.pr_list.items().len(), 1);
    assert_eq!(app.archive_list.items().len(), 1);

    app.handle_app_event(AppEvent::PrsUpdated { query_name: "my-query".to_string(), prs: vec![pr1] }, now(), 0);
    assert_eq!(app.pr_list.items().len(), 0, "Archived PR must be removed from active list");
}

#[test]
fn test_saved_state_without_attention_fields_treated_as_first_appearance() {
    let mut saved_pr = create_test_pr("20", 20);
    saved_pr.author = "testuser".to_string();
    saved_pr.ci_status = CIStatus::Failing;
    saved_pr.attention_state = AttentionState::default();
    let mut app = app_with(vec![saved_pr.duplicate()], vec![]);
    app.config.current_user = "testuser".to_string();

    let mut github_pr = saved_pr.duplicate();
    github_pr.ci_status = CIStatus::Failing;
    poll(&mut app, vec![github_pr]);

    assert!(
        find(&app, "20").attention_state.active_reasons.contains(&TriggerReason::CiFailed),
        "CiFailed should fire retroactively for PR with no prior attention state"
    );
}

#[test]
fn test_restrictive_query_drops_unmatched_prs_after_initial_sync() {
    let pr1 = create_test_pr("1", 1);
    let persisted = vec![pr1.duplicate(), create_test_pr("2", 2), create_test_pr("3", 3)];
    let mut app = app_with(persisted, vec![]);
    assert_eq!(app.pr_list.items().len(), 3, "all 3 PRs loaded from persisted state");

    app.handle_app_event(AppEvent::PrsUpdated { query_name: "main".to_string(), prs: vec![pr1] }, now(), 0);
    assert_eq!(
        app.pr_list.items().len(),
        3,
        "while is_first_sync is true, unattributed PRs stay (other queries may still match them)"
    );

    app.handle_app_event(AppEvent::InitialSyncDone, now(), 0);
    assert_eq!(app.pr_list.items().len(), 1, "after InitialSyncDone, PRs not matched by any query are dropped");
    assert_eq!(app.pr_list.items()[0].id, "1");
}

#[test]
fn test_user_comment_on_others_pr_clears_reasons() {
    let mut pr = create_test_pr("1", 1);
    pr.author = "otheruser".to_string();
    pr.attention_state = with_reasons(&[TriggerReason::Mentioned]);
    let mut app = app_with(vec![pr], vec![]);
    app.config.current_user = "testuser".to_string();

    let events = vec![TimelineEvent {
        id: "c1".to_string(),
        event_type: "IssueComment".to_string(),
        actor: "testuser".to_string(),
        created_at: "2024-05-01T12:00:00Z".to_string(),
        content: Some("Done, thanks".to_string()),
        reviewer_login: None,
    }];
    app.handle_app_event(AppEvent::TimelineLoaded { repo: "org/repo".to_string(), pr_number: 1, events }, now(), 0);

    let state = &find(&app, "1").attention_state;
    assert!(state.active_reasons.is_empty());
    assert_eq!(state.last_seen_at, Some(now()));
}

#[test]
fn test_pr_dropped_when_query_stops_matching_after_initial_sync() {
    let mut pr1 = create_test_pr("1", 1);
    pr1.matched_queries = vec!["main".to_string()];
    let mut app = app_with(vec![pr1], vec![]);

    app.handle_app_event(AppEvent::InitialSyncDone, now(), 0);
    assert_eq!(app.pr_list.items().len(), 1);

    app.handle_app_event(AppEvent::PrsUpdated { query_name: "main".to_string(), prs: vec![] }, now(), 0);
    assert_eq!(app.pr_list.items().len(), 0, "PR dropped once it has no remaining query attribution");
}

#[test]
fn test_pr_listed_under_other_query_stays_when_one_query_stops_matching() {
    let mut pr1 = create_test_pr("1", 1);
    pr1.matched_queries = vec!["main".to_string(), "team".to_string()];
    let mut app = app_with(vec![pr1], vec![]);
    app.handle_app_event(AppEvent::InitialSyncDone, now(), 0);

    app.handle_app_event(AppEvent::PrsUpdated { query_name: "main".to_string(), prs: vec![] }, now(), 0);
    assert_eq!(app.pr_list.items().len(), 1);
    assert_eq!(app.pr_list.items()[0].matched_queries, vec!["team".to_string()]);
}

#[test]
fn test_unmatched_pr_kept_during_initial_sync() {
    let mut pr1 = create_test_pr("1", 1);
    pr1.matched_queries = vec!["main".to_string()];
    let mut app = app_with(vec![pr1], vec![]);

    app.handle_app_event(AppEvent::PrsUpdated { query_name: "main".to_string(), prs: vec![] }, now(), 0);
    assert_eq!(app.pr_list.items().len(), 1, "no pull request leaves before the first sync is done");
}
