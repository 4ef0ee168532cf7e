use ghwatch::app::events::{follow_event, AppEvent, InputEvent};
use ghwatch::app::keys::{Key, KeyCode};
use ghwatch::app::{App, AppMode, Effect, SortMode};
use ghwatch::config::{AppConfig, Column, GroupMode, QueryConfig};
use ghwatch::domain::attention::{AttentionState, TriggerReason};
use ghwatch::domain::pr::{CIStatus, MergeableStatus, PRStatus, PullRequest, ReviewStatus, TimelineEvent};
use ghwatch::domain::attention::parse_ts;
use ghwatch::domain::time::Timestamp;
use ghwatch::ui::components::settings::QUERIES_START;

fn now() -> Timestamp {
    parse_ts("2024-05-02T12:00:00Z").unwrap()
}

fn key(c: char) -> Key {
    Key { code: KeyCode::Char(c), ctrl: false }
}

fn code(k: KeyCode) -> Key {
    Key { code: k, ctrl: false }
}

fn create_test_pr(id: &str, ci: CIStatus) -> PullRequest {
    PullRequest {
        id: id.to_string(),
        number: 1,
        title: "Test".to_string(),
        author: "alice".to_string(),
        repo: "org/repo".to_string(),
        status: PRStatus::Open,
        created_at: "now".to_string(),
        updated_at: "now".to_string(),
        additions: 0,
        deletions: 0,
        review_status: ReviewStatus::Pending,
        comment_count: 0,
        unresolved_count: 0,
        total_resolvable_count: 0,
        conversational_count: 0,
        ci_status: ci,
        mergeable: MergeableStatus::Unknown,
        head_ref: "sha".to_string(),
        body: String::new(),
        url: String::new(),
        requested_reviewers: vec![],
        reviewers: vec![],
        is_draft: false,
        matched_queries: vec![],
        last_seen_at: None,
        last_seen_unresolved_count: 0,
        last_seen_total_resolvable_count: 0,
        last_seen_conversational_count: 0,
        attention_state: AttentionState::default(),
    }
}

fn test_pr(id: &str, repo: &str, updated_at: &str) -> PullRequest {
    let mut p = create_test_pr(id, CIStatus::Passing);
    p.repo = repo.to_string();
    p.updated_at = updated_at.to_string();
    p.created_at = updated_at.to_string();
    p.url = format!("https://github.com/{repo}/pull/{id}");
    p
}

fn create_test_app() -> App {
    App::new(AppConfig::default(), vec![], vec![], true)
}

fn notifications(effects: &[Effect]) -> usize {
    effects.iter().filter(|e| matches!(e, Effect::Notify(_))).count()
}

#[test]
fn test_suppress_notifications_at_startup() {
    let mut app = create_test_app();

    // 1. First sync: no notification.
    let effects = app.handle_app_event(
        AppEvent::PrsUpdated { query_name: "test".to_string(), prs: vec![create_test_pr("1", CIStatus::Pending)] },
        now(),
        0,
    );
    assert_eq!(notifications(&effects), 0);

    // 2. Initial sync done.
    app.handle_app_event(AppEvent::InitialSyncDone, now(), 0);

    // 3. A new pull request afterwards is announced once.
    let effects = app.handle_app_event(
        AppEvent::PrsUpdated { query_name: "test".to_string(), prs: vec![create_test_pr("2", CIStatus::Pending)] },
        now(),
        0,
    );
    assert_eq!(notifications(&effects), 1);
    assert!(matches!(effects.last(), Some(Effect::SaveState)));
}

#[test]
fn test_handle_normal_key_navigation() {
    let mut app = create_test_app();
    app.pr_list.set_prs(vec![create_test_pr("1", CIStatus::Passing), create_test_pr("2", CIStatus::Passing)]);
    app.pr_list.set_selected_index(0);

    let effects = app.handle_key(key('j'), now(), 0);
    assert_eq!(app.pr_list.selected_index(), 1);
    assert!(matches!(effects.last(), Some(Effect::FetchDetails(_, 1))));

    app.handle_key(key('k'), now(), 0);
    assert_eq!(app.pr_list.selected_index(), 0);
}

#[test]
fn test_handle_normal_key_modes() {
    let mut app = create_test_app();

    app.handle_key(key('?'), now(), 0);
    assert_eq!(app.mode, AppMode::Help);
    app.handle_key(code(KeyCode::Esc), now(), 0);
    assert_eq!(app.mode, AppMode::Normal);

    app.handle_key(key('/'), now(), 0);
    assert_eq!(app.mode, AppMode::Search);
    app.handle_key(code(KeyCode::Esc), now(), 0);
    assert_eq!(app.mode, AppMode::Normal);

    let effects = app.handle_key(code(KeyCode::Right), now(), 0);
    assert_eq!(app.mode, AppMode::Archive);
    assert!(matches!(effects[0], Effect::ReloadArchive));
    app.handle_key(code(KeyCode::Right), now(), 0);
    assert_eq!(app.mode, AppMode::Settings);
}

#[test]
fn test_handle_search_input() {
    let mut app = create_test_app();
    app.mode = AppMode::Search;

    app.handle_key(key('a'), now(), 0);
    app.handle_key(key('b'), now(), 0);
    assert_eq!(app.input_buffer, "ab");

    app.handle_key(code(KeyCode::Backspace), now(), 0);
    assert_eq!(app.input_buffer, "a");

    app.handle_key(code(KeyCode::Enter), now(), 0);
    assert_eq!(app.mode, AppMode::Normal);
}

#[test]
fn test_theme_row_opens_picker_at_current_theme() {
    let mut app = create_test_app();
    app.mode = AppMode::Settings;
    app.settings_selected_index = 4;
    app.config.theme = "nord".to_string();

    app.handle_key(code(KeyCode::Enter), now(), 0);

    assert_eq!(app.mode, AppMode::ThemePicker);
    assert_eq!(app.theme_picker_original, Some("nord".to_string()));
    assert_eq!(app.theme_picker_index, 2);
}

#[test]
fn test_theme_picker_j_updates_index_and_live_preview() {
    let mut app = create_test_app();
    app.mode = AppMode::ThemePicker;
    app.theme_picker_index = 0;
    app.theme_picker_original = Some("dracula".to_string());
    app.config.theme = "dracula".to_string();

    app.handle_key(key('j'), now(), 0);

    assert_eq!(app.theme_picker_index, 1);
    assert_eq!(app.config.theme, "one-dark-pro");
}

#[test]
fn test_theme_picker_enter_commits_theme() {
    let mut app = create_test_app();
    app.mode = AppMode::ThemePicker;
    app.theme_picker_index = 2;
    app.theme_picker_original = Some("dracula".to_string());
    app.config.theme = "nord".to_string();

    let effects = app.handle_key(code(KeyCode::Enter), now(), 0);

    assert_eq!(app.mode, AppMode::Settings);
    assert_eq!(app.theme_picker_original, None);
    assert_eq!(app.config.theme, "nord");
    assert!(matches!(effects[0], Effect::SaveConfig));
}

#[test]
fn test_theme_picker_esc_restores_original_theme() {
    let mut app = create_test_app();
    app.mode = AppMode::ThemePicker;
    app.theme_picker_index = 2;
    app.theme_picker_original = Some("dracula".to_string());
    app.config.theme = "nord".to_string();

    app.handle_key(code(KeyCode::Esc), now(), 0);

    assert_eq!(app.mode, AppMode::Settings);
    assert_eq!(app.config.theme, "dracula");
    assert_eq!(app.theme_picker_original, None);
}

fn one_query() -> Vec<QueryConfig> {
    vec![QueryConfig {
        name: "My Query".to_string(),
        search: "is:pr author:me".to_string(),
        interval: "60s".to_string(),
        enabled: true,
    }]
}

#[test]
fn test_handle_settings_edit_query_prefills_buffers() {
    let mut app = create_test_app();
    app.mode = AppMode::Settings;
    app.config.queries = one_query();
    app.settings_selected_index = QUERIES_START;

    app.handle_key(key('e'), now(), 0);

    assert_eq!(app.mode, AppMode::AddQueryName);
    assert_eq!(app.editing_query_index, Some(0));
    assert_eq!(app.query_name_buffer, "My Query");
    assert_eq!(app.query_search_buffer, "is:pr author:me");
}

#[test]
fn test_handle_settings_delete_query_shows_confirm() {
    let mut app = create_test_app();
    app.mode = AppMode::Settings;
    app.config.queries = one_query();
    app.settings_selected_index = QUERIES_START;

    app.handle_key(key('d'), now(), 0);

    assert_eq!(app.mode, AppMode::DeleteQueryConfirm);
    assert_eq!(app.deleting_query_index, Some(0));
}

#[test]
fn test_handle_delete_confirm_y_removes_query() {
    let mut app = create_test_app();
    app.mode = AppMode::DeleteQueryConfirm;
    app.config.queries = one_query();
    app.deleting_query_index = Some(0);
    app.settings_selected_index = QUERIES_START;

    let effects = app.handle_key(key('y'), now(), 0);

    assert_eq!(app.mode, AppMode::Settings);
    assert!(app.config.queries.is_empty());
    assert_eq!(app.deleting_query_index, None);
    assert_eq!(app.settings_selected_index, QUERIES_START);
    assert!(matches!(effects[0], Effect::SaveConfig));
    assert!(matches!(effects[1], Effect::RestartPolling));
}

#[test]
fn test_handle_delete_confirm_esc_cancels() {
    let mut app = create_test_app();
    app.mode = AppMode::DeleteQueryConfirm;
    app.config.queries = one_query();
    app.deleting_query_index = Some(0);

    app.handle_key(code(KeyCode::Esc), now(), 0);

    assert_eq!(app.mode, AppMode::Settings);
    assert_eq!(app.config.queries.len(), 1);
    assert_eq!(app.deleting_query_index, None);
}

#[test]
fn test_handle_settings_edit_esc_from_name_clears_editing_index() {
    let mut app = create_test_app();
    app.mode = AppMode::AddQueryName;
    app.editing_query_index = Some(0);

    app.handle_key(code(KeyCode::Esc), now(), 0);

    assert_eq!(app.mode, AppMode::Settings);
    assert_eq!(app.editing_query_index, None);
}

#[test]
fn test_add_query_flow_appends_enabled_query() {
    let mut app = create_test_app();
    app.mode = AppMode::Settings;
    app.settings_selected_index = QUERIES_START + app.config.queries.len();
    app.handle_key(code(KeyCode::Enter), now(), 0);
    assert_eq!(app.mode, AppMode::AddQueryName);
    app.handle_key(code(KeyCode::Enter), now(), 0);
    assert_eq!(app.mode, AppMode::AddQueryName, "an empty name does not go on");
    app.handle_key(key('x'), now(), 0);
    app.handle_key(code(KeyCode::Enter), now(), 0);
    assert_eq!(app.mode, AppMode::AddQuerySearch);
    for c in "is:pr".chars() {
        app.handle_key(key(c), now(), 0);
    }
    let effects = app.handle_key(code(KeyCode::Enter), now(), 0);
    assert_eq!(app.mode, AppMode::ConfirmQuery);
    assert!(app.is_testing_query);
    assert!(matches!(&effects[0], Effect::TestQuery(q) if q == "is:pr"));
    // Not confirmable while the test runs.
    app.handle_key(key('y'), now(), 0);
    assert_eq!(app.mode, AppMode::ConfirmQuery);
    app.handle_app_event(AppEvent::QueryTested(Ok(vec![])), now(), 0);
    app.handle_key(key('y'), now(), 0);
    assert_eq!(app.mode, AppMode::Settings);
    let q = app.config.queries.last().unwrap();
    assert_eq!(q.name, "x");
    assert_eq!(q.search, "is:pr");
    assert_eq!(q.interval, "60s");
    assert!(q.enabled);
}

#[test]
fn test_toggle_column_and_nerd_fonts() {
    let mut app = create_test_app();
    app.mode = AppMode::Settings;
    app.settings_selected_index = 7;
    app.handle_key(code(KeyCode::Enter), now(), 0);
    assert_eq!(app.config.visible_columns, vec![Column::Author, Column::Diff, Column::Comments]);
    app.handle_key(key(' '), now(), 0);
    assert_eq!(app.config.visible_columns, vec![Column::Author, Column::Diff, Column::Comments, Column::Age]);
    app.settings_selected_index = 2;
    app.handle_key(code(KeyCode::Enter), now(), 0);
    assert!(!app.config.use_nerd_fonts);
}

#[test]
fn test_follow_input_forms() {
    let app = create_test_app();
    let e = app.follow_pr("  https://github.com/org/repo/pull/42  ");
    assert!(matches!(&e[0], Effect::FollowPr(r, 42) if r == "org/repo"));
    let e = app.follow_pr("org/repo # 7");
    assert!(matches!(&e[0], Effect::FollowPr(r, 7) if r == "org/repo"));
    assert!(app.follow_pr("org/repo").is_empty());
    assert!(app.follow_pr("https://github.com/org").is_empty());
    assert!(app.follow_pr("org/repo#x").is_empty());
}

#[test]
fn test_follow_key_fetches_named_pr() {
    let mut app = create_test_app();
    app.handle_key(key('f'), now(), 0);
    assert_eq!(app.mode, AppMode::Follow);
    for c in "a/b#3".chars() {
        app.handle_key(key(c), now(), 0);
    }
    let effects = app.handle_key(code(KeyCode::Enter), now(), 0);
    assert_eq!(app.mode, AppMode::Normal);
    assert_eq!(app.input_buffer, "");
    assert!(matches!(&effects[0], Effect::FollowPr(r, 3) if r == "a/b"));
}

#[test]
fn test_sort_modes_and_grouping() {
    let mut app = create_test_app();
    app.pr_list.set_prs(vec![
        test_pr("1", "org/b", "2024-05-01T10:00:00Z"),
        test_pr("2", "org/a", "2024-05-01T12:00:00Z"),
        test_pr("3", "org/b", "2024-05-01T11:00:00Z"),
    ]);
    app.sort_prs();
    let ids: Vec<&str> = app.pr_list.items().iter().map(|p| p.id.as_str()).collect();
    assert_eq!(ids, vec!["2", "3", "1"], "newest update first");

    app.handle_key(key('s'), now(), 0);
    assert_eq!(app.sort_mode, SortMode::Created);
    app.handle_key(key('s'), now(), 0);
    app.handle_key(key('s'), now(), 0);
    assert_eq!(app.sort_mode, SortMode::Repo);
    let ids: Vec<&str> = app.pr_list.items().iter().map(|p| p.id.as_str()).collect();
    assert_eq!(ids, vec!["2", "3", "1"], "equal repositories keep their order");

    app.handle_key(Key { code: KeyCode::Char('g'), ctrl: true }, now(), 0);
    assert_eq!(app.config.group_by, GroupMode::Repo);
}

#[test]
fn test_priority_sort_puts_attention_first() {
    let mut app = create_test_app();
    app.config.current_user = "me".to_string();
    let mut mine = test_pr("9", "org/z", "2024-05-01T09:00:00Z");
    mine.requested_reviewers = vec!["me".to_string()];
    app.pr_list.set_prs(vec![test_pr("1", "org/a", "2024-05-01T12:00:00Z"), mine]);
    app.sort_mode = SortMode::Priority;
    app.sort_prs();
    assert_eq!(app.pr_list.items()[0].id, "9");
}

#[test]
fn test_mark_seen_and_unfollow_keys() {
    let mut app = create_test_app();
    let mut p = test_pr("1", "org/a", "2024-05-01T12:00:00Z");
    p.attention_state.active_reasons.insert(TriggerReason::CiFailed);
    p.unresolved_count = 3;
    app.pr_list.set_prs(vec![p, test_pr("2", "org/a", "2024-05-01T11:00:00Z")]);

    let effects = app.handle_key(key('m'), now(), 0);
    let first = &app.pr_list.items()[0];
    assert_eq!(first.last_seen_at.as_deref(), Some("2024-05-01T12:00:00Z"));
    assert_eq!(first.last_seen_unresolved_count, 3);
    assert!(first.attention_state.active_reasons.is_empty());
    assert_eq!(first.attention_state.last_seen_at, Some(now()));
    assert!(matches!(effects[0], Effect::SaveState));

    let effects = app.handle_key(key('u'), now(), 0);
    assert_eq!(app.pr_list.items().len(), 1);
    assert_eq!(app.archive_list.items()[0].id, "1");
    assert!(matches!(&effects[0], Effect::ArchivePr(p) if p.id == "1"));

    app.mode = AppMode::Archive;
    let effects = app.handle_key(key('f'), now(), 0);
    assert_eq!(app.pr_list.items()[0].id, "1");
    assert_eq!(app.pr_list.items()[0].matched_queries, vec!["manual".to_string()]);
    assert!(app.archive_list.items().is_empty());
    assert!(matches!(effects[0], Effect::SaveArchive));
    assert!(matches!(effects[1], Effect::SaveState));
}

#[test]
fn test_open_marks_seen_when_configured() {
    let mut app = create_test_app();
    app.pr_list.set_prs(vec![test_pr("1", "org/a", "2024-05-01T12:00:00Z")]);
    let effects = app.handle_key(key('o'), now(), 0);
    assert_eq!(effects.len(), 1);
    assert!(matches!(&effects[0], Effect::OpenInBrowser(u) if u == "https://github.com/org/a/pull/1"));
    assert!(app.pr_list.items()[0].last_seen_at.is_none());
    app.config.attention.open_in_browser_marks_seen = true;
    let effects = app.handle_key(key('o'), now(), 0);
    assert_eq!(effects.len(), 2);
    assert!(app.pr_list.items()[0].last_seen_at.is_some());
}

#[test]
fn test_auto_unfollow_moves_finished_prs_to_archive() {
    let mut app = create_test_app();
    let mut merged = test_pr("1", "org/a", "2024-05-02T10:00:00Z");
    merged.status = PRStatus::Merged;
    let mut closed_recent = test_pr("2", "org/a", "2024-05-02T11:30:00Z");
    closed_recent.status = PRStatus::Closed;
    let open_old = test_pr("3", "org/a", "2024-04-01T00:00:00Z");
    app.pr_list.set_prs(vec![merged, closed_recent, open_old]);
    let effects = app.check_auto_unfollow(now());
    let ids: Vec<&str> = app.pr_list.items().iter().map(|p| p.id.as_str()).collect();
    assert_eq!(ids, vec!["2", "3"]);
    assert_eq!(app.archive_list.items()[0].id, "1");
    assert_eq!(effects.len(), 2);
    assert!(matches!(effects[1], Effect::SaveState));

    let mut reader = App::new(AppConfig::default(), vec![], vec![], false);
    let mut m = test_pr("1", "org/a", "2024-05-02T10:00:00Z");
    m.status = PRStatus::Merged;
    reader.pr_list.set_prs(vec![m]);
    assert!(reader.check_auto_unfollow(now()).is_empty());
    assert_eq!(reader.pr_list.items().len(), 1);
}

#[test]
fn test_merge_update_keeps_seen_markers_and_fetches_details() {
    let mut app = create_test_app();
    let mut old = test_pr("1", "org/a", "2024-05-01T10:00:00Z");
    old.last_seen_at = Some("2024-05-01T10:00:00Z".to_string());
    old.last_seen_unresolved_count = 2;
    app.pr_list.set_prs(vec![old]);
    app.is_first_sync = false;
    let mut new = test_pr("1", "org/a", "2024-05-01T11:00:00Z");
    new.ci_status = CIStatus::Failing;
    new.author = "me".to_string();
    app.config.current_user = "me".to_string();
    let effects = app.merge_prs(vec![new], "q", false, now());
    let merged = &app.pr_list.items()[0];
    assert_eq!(merged.updated_at, "2024-05-01T11:00:00Z");
    assert_eq!(merged.last_seen_at.as_deref(), Some("2024-05-01T10:00:00Z"));
    assert_eq!(merged.last_seen_unresolved_count, 2);
    assert!(merged.attention_state.active_reasons.contains(&TriggerReason::CiFailed));
    assert_eq!(notifications(&effects), 1);
    assert!(effects.iter().any(|e| matches!(e, Effect::FetchDetails(r, 1) if r == "org/a")));
    assert_eq!(app.last_refresh, Some(now()));

    // Unchanged: nothing happens.
    let same = app.pr_list.items()[0].duplicate();
    let effects = app.merge_prs(vec![same], "q", false, now());
    assert!(effects.is_empty());
    assert_eq!(app.pr_list.items()[0].matched_queries, vec!["q".to_string()]);
}

#[test]
fn test_merge_detail_keeps_attention() {
    let mut app = create_test_app();
    let mut old = test_pr("1", "org/a", "2024-05-01T10:00:00Z");
    old.attention_state.active_reasons.insert(TriggerReason::Mentioned);
    app.pr_list.set_prs(vec![old]);
    let mut detailed = test_pr("1", "org/a", "2024-05-01T10:00:00Z");
    detailed.body = "full body".to_string();
    let effects = app.handle_app_event(
        AppEvent::PrsUpdated { query_name: "detail".to_string(), prs: vec![detailed] },
        now(),
        0,
    );
    assert_eq!(app.pr_list.items()[0].body, "full body");
    assert!(app.pr_list.items()[0].attention_state.active_reasons.contains(&TriggerReason::Mentioned));
    assert_eq!(effects.len(), 1);
}

#[test]
fn test_timeline_loaded_reevaluates_and_stores() {
    let mut app = create_test_app();
    app.config.current_user = "me".to_string();
    let mut p = test_pr("1", "org/a", "2024-05-01T10:00:00Z");
    p.number = 5;
    p.attention_state.last_seen_at = parse_ts("2024-05-01T09:00:00Z");
    app.pr_list.set_prs(vec![p]);
    app.pr_list.items_mut()[0].attention_state.active_reasons.insert(TriggerReason::Approved);
    let ev = TimelineEvent {
        id: "c1".to_string(),
        event_type: "IssueComment".to_string(),
        actor: "bob".to_string(),
        created_at: "2024-05-01T11:00:00Z".to_string(),
        content: Some("ping @me".to_string()),
        reviewer_login: None,
    };
    let effects = app.handle_app_event(
        AppEvent::TimelineLoaded { repo: "org/a".to_string(), pr_number: 5, events: vec![ev] },
        now(),
        0,
    );
    assert!(app.pr_list.items()[0].attention_state.active_reasons.contains(&TriggerReason::Mentioned));
    assert_eq!(app.pr_timelines.get("1").unwrap().len(), 1);
    assert_eq!(app.current_timeline.len(), 1);
    assert!(matches!(effects[0], Effect::SaveState));
}

#[test]
fn test_error_message_expires_after_ten_seconds() {
    let mut app = create_test_app();
    app.handle_app_event(AppEvent::Error("boom".to_string()), now(), 0);
    assert_eq!(app.error_message.as_deref(), Some("boom"));
    let later = Timestamp { secs: now().secs + 10, nanos: 0 };
    app.handle_app_event(AppEvent::Tick, later, 0);
    assert!(app.error_message.is_some());
    let later = Timestamp { secs: now().secs + 11, nanos: 0 };
    app.handle_app_event(AppEvent::Tick, later, 0);
    assert!(app.error_message.is_none());
}

#[test]
fn test_ci_status_loaded_only_for_selected() {
    let mut app = create_test_app();
    app.pr_list.set_prs(vec![test_pr("1", "org/a", "2024-05-01T10:00:00Z")]);
    app.handle_app_event(
        AppEvent::CiStatusLoaded { repo: "org/b".to_string(), pr_number: 1, checks: vec![] },
        now(),
        0,
    );
    assert!(app.current_checks.is_empty());
    let check = ghwatch::domain::pr::CheckRun {
        name: "build".to_string(),
        status: "completed".to_string(),
        conclusion: Some("success".to_string()),
        url: String::new(),
    };
    app.handle_app_event(
        AppEvent::CiStatusLoaded { repo: "org/a".to_string(), pr_number: 1, checks: vec![check] },
        now(),
        0,
    );
    assert_eq!(app.current_checks.len(), 1);
}

#[test]
fn test_scroll_moves_selection_in_normal_mode() {
    let mut app = create_test_app();
    app.pr_list.set_prs(vec![test_pr("1", "org/a", "x"), test_pr("2", "org/a", "y")]);
    let effects = app.handle_input(InputEvent::ScrollDown, now(), 0);
    assert_eq!(app.pr_list.selected_index(), 1);
    assert_eq!(effects.len(), 1);
    let effects = app.handle_input(InputEvent::ScrollDown, now(), 0);
    assert_eq!(app.pr_list.selected_index(), 1);
    assert!(effects.is_empty());
    app.mode = AppMode::Help;
    app.handle_input(InputEvent::ScrollUp, now(), 0);
    assert_eq!(app.pr_list.selected_index(), 1);
}

#[test]
fn test_diagnostic_keys() {
    let mut app = create_test_app();
    app.handle_key(Key { code: KeyCode::Char('l'), ctrl: true }, now(), 3);
    assert_eq!(app.mode, AppMode::Diagnostic);
    app.handle_key(key('j'), now(), 3);
    app.handle_key(key('j'), now(), 3);
    app.handle_key(key('j'), now(), 3);
    assert_eq!(app.diagnostic_selected_index, 2);
    let effects = app.handle_key(key('y'), now(), 3);
    assert!(matches!(effects[0], Effect::CopyDiagnostic(2)));
    app.handle_key(code(KeyCode::Enter), now(), 3);
    assert_eq!(app.mode, AppMode::LogDetail);
    app.handle_key(key('q'), now(), 3);
    assert_eq!(app.mode, AppMode::Diagnostic);
    app.handle_key(code(KeyCode::Esc), now(), 3);
    assert_eq!(app.mode, AppMode::Settings);
}

#[test]
fn test_navigation_does_not_mark_seen() {
    let mut first = create_test_pr("1", CIStatus::Passing);
    first.attention_state.active_reasons.insert(TriggerReason::Mentioned);
    let mut app = create_test_app();
    app.pr_list.set_prs(vec![first, create_test_pr("2", CIStatus::Passing)]);

    app.handle_key(key('j'), now(), 0);
    app.handle_key(key('k'), now(), 0);
    app.handle_key(key('G'), now(), 0);
    app.handle_key(key('g'), now(), 0);
    app.handle_input(InputEvent::ScrollDown, now(), 0);
    app.handle_input(InputEvent::ScrollUp, now(), 0);

    for pr in app.pr_list.items() {
        assert!(pr.last_seen_at.is_none());
        assert!(pr.attention_state.last_seen_at.is_none());
    }
    assert!(app.pr_list.items()[0].attention_state.active_reasons.contains(&TriggerReason::Mentioned));
}

#[test]
fn test_reader_instance_never_writes_on_background_events() {
    let mut app = App::new(AppConfig::default(), vec![], vec![], false);
    let mut done = test_pr("1", "org/repo", "2024-05-01T09:00:00Z");
    done.status = PRStatus::Merged;
    app.handle_app_event(AppEvent::InitialSyncDone, now(), 0);

    let mut effects = app.handle_app_event(
        AppEvent::PrsUpdated { query_name: "q".to_string(), prs: vec![done, test_pr("2", "org/repo", "2024-05-02T09:00:00Z")] },
        now(),
        0,
    );
    effects.extend(app.handle_app_event(
        AppEvent::TimelineLoaded { repo: "org/repo".to_string(), pr_number: 1, events: vec![] },
        now(),
        0,
    ));
    effects.extend(app.handle_app_event(AppEvent::ConfigReloaded(AppConfig::default()), now(), 0));

    assert!(!effects.iter().any(|e| matches!(
        e,
        Effect::SaveState | Effect::SaveArchive | Effect::ArchivePr(_) | Effect::SaveConfig | Effect::RestartPolling
    )));
    assert_eq!(app.archive_list.items().len(), 0);
    // The merged pull request stays listed: only the writer unfollows.
    assert_eq!(app.pr_list.items().len(), 2);
}

#[test]
fn test_edit_max_age_days_enter_sets_value() {
    let mut app = create_test_app();
    app.mode = AppMode::EditMaxAgeDays;
    app.max_age_days_buffer = "14".to_string();

    app.handle_key(code(KeyCode::Enter), now(), 0);

    assert_eq!(app.mode, AppMode::Settings);
    assert_eq!(app.config.max_age_days, Some(14));
}

#[test]
fn test_edit_max_age_days_enter_empty_clears_value() {
    let mut app = create_test_app();
    app.config.max_age_days = Some(7);
    app.mode = AppMode::EditMaxAgeDays;
    app.max_age_days_buffer = String::new();

    app.handle_key(code(KeyCode::Enter), now(), 0);

    assert_eq!(app.mode, AppMode::Settings);
    assert_eq!(app.config.max_age_days, None);
}

#[test]
fn test_edit_max_age_days_esc_does_not_change_value() {
    let mut app = create_test_app();
    app.config.max_age_days = Some(7);
    app.mode = AppMode::EditMaxAgeDays;
    app.max_age_days_buffer = "99".to_string();

    app.handle_key(code(KeyCode::Esc), now(), 0);

    assert_eq!(app.mode, AppMode::Settings);
    assert_eq!(app.config.max_age_days, Some(7));
}

#[test]
fn test_edit_max_age_days_ignores_non_digit_chars() {
    let mut app = create_test_app();
    app.mode = AppMode::EditMaxAgeDays;
    app.max_age_days_buffer = String::new();

    app.handle_key(key('a'), now(), 0);
    app.handle_key(key('1'), now(), 0);
    app.handle_key(key('4'), now(), 0);

    assert_eq!(app.max_age_days_buffer, "14");
}

#[test]
fn test_edit_max_age_days_zero_clears_and_saves() {
    let mut app = create_test_app();
    app.config.max_age_days = Some(7);
    app.mode = AppMode::EditMaxAgeDays;
    app.max_age_days_buffer = "0".to_string();

    let effects = app.handle_key(code(KeyCode::Enter), now(), 0);

    assert_eq!(app.config.max_age_days, None);
    assert!(effects.iter().any(|e| matches!(e, Effect::SaveConfig)));
}

#[test]
fn test_follow_event_for_fetched_and_failed_pull_request() {

    let pr = create_test_pr("1", CIStatus::Passing);
    match follow_event("org/repo", 42, Ok(pr)) {
        AppEvent::PrsUpdated { query_name, prs } => {
            assert_eq!(query_name, "manual");
            assert_eq!(prs.len(), 1);
            assert_eq!(prs[0].id, "1");
        }
        _ => panic!("expected the fetched pull request"),
    }
    match follow_event("org/repo", 42, Err("not found".to_string())) {
        AppEvent::Error(m) => assert_eq!(m, "Failed to fetch PR org/repo#42: not found"),
        _ => panic!("expected an error"),
    }
}
