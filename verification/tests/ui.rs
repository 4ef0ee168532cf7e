use chrono::{Duration, Local};
use ghwatch::app::keys::{Key, KeyCode};
use ghwatch::app::{App, AppMode};
use ghwatch::config::{AppConfig, Column, QueryConfig};
use ghwatch::domain::attention::AttentionState;
use ghwatch::domain::pr::{CIStatus, MergeableStatus, PRStatus, PullRequest, ReviewStatus};
use ghwatch::domain::attention::parse_ts;
use ghwatch::ui::components::settings::{get_setting_action, SettingAction};
use ghwatch::ui::components::tab_bar::active_tab;
use ghwatch::ui::format::{format_relative_time, format_relative_time_at};
use ghwatch::ui::icons::Icons;
use ghwatch::ui::search::filter_prs;
use ghwatch::domain::attention::{ReasonSet, TriggerReason};
use ghwatch::domain::pr::{CheckRun, Reviewer};
use ghwatch::ui::components::detail::reason_labels;
use ghwatch::ui::components::detail::{check_outcome, reviewers_text, shown_content, CheckOutcome};
use ghwatch::ui::components::list::mergeable_badge;
use ghwatch::ui::components::list::{comment_pieces, fit_title, title_room};

fn pr(id: &str, number: u32, title: &str, author: &str, repo: &str) -> PullRequest {
    PullRequest {
        id: id.to_string(),
        number,
        title: title.to_string(),
        author: author.to_string(),
        repo: repo.to_string(),
        status: PRStatus::Open,
        created_at: String::new(),
        updated_at: String::new(),
        additions: 0,
        deletions: 0,
        review_status: ReviewStatus::Pending,
        comment_count: 0,
        unresolved_count: 0,
        total_resolvable_count: 0,
        conversational_count: 0,
        ci_status: CIStatus::Passing,
        mergeable: MergeableStatus::Unknown,
        head_ref: String::new(),
        body: String::new(),
        url: String::new(),
        requested_reviewers: vec![],
        reviewers: vec![],
        is_draft: false,
        matched_queries: vec![],
        last_seen_at: None,
        last_seen_unresolved_count: 0,
        last_seen_total_resolvable_count: 0,
        last_seen_conversational_count: 0,
        attention_state: AttentionState::default(),
    }
}

#[test]
fn test_icons_standard() {
    let icons = Icons::new(false);
    assert_eq!(icons.comment(), "💬");
    assert_eq!(icons.check_ok(), "✓");
    assert_eq!(icons.check_err(), "✗");
}

#[test]
fn test_icons_nerd() {
    let icons = Icons::new(true);
    assert_eq!(icons.comment(), "󰆈");
    assert_eq!(icons.check_ok(), "󰄬");
    assert_eq!(icons.check_err(), "󰅖");
}

#[test]
fn test_icons_diff() {
    let icons = Icons::new(false);
    assert_eq!(icons.additions(), "+");
    assert_eq!(icons.deletions(), "-");
}

#[test]
fn test_get_setting_action() {
    let mut config = AppConfig::default();
    config.queries = vec![QueryConfig {
        name: "test".to_string(),
        search: "search".to_string(),
        interval: "1m".to_string(),
        enabled: true,
    }];

    assert!(matches!(get_setting_action(&config, 0), SettingAction::NoAction));
    assert!(matches!(get_setting_action(&config, 2), SettingAction::ToggleNerdFonts));
    assert!(matches!(get_setting_action(&config, 4), SettingAction::CycleTheme));
    assert!(matches!(get_setting_action(&config, 6), SettingAction::ToggleColumn(Column::Author)));
    assert!(matches!(get_setting_action(&config, 10), SettingAction::ToggleQuery(0)));
    assert!(matches!(get_setting_action(&config, 11), SettingAction::AddQuery));
    assert!(matches!(get_setting_action(&config, 999), SettingAction::NoAction));
}

#[test]
fn test_format_relative_time_now() {
    let now = Local::now();
    let t = (now - Duration::seconds(30)).to_rfc3339();
    assert_eq!(format_relative_time(&t), "now");
}

#[test]
fn test_format_relative_time_future_shows_now() {
    let now = Local::now();
    let t = (now + Duration::seconds(10)).to_rfc3339();
    assert_eq!(format_relative_time(&t), "now");
}

#[test]
fn test_format_relative_time_minutes() {
    let now = Local::now();
    let t = (now - Duration::minutes(5)).to_rfc3339();
    assert_eq!(format_relative_time(&t), "5m");
}

#[test]
fn test_format_relative_time_hours_and_minutes() {
    let now = Local::now();
    let t = (now - Duration::hours(2) - Duration::minutes(10)).to_rfc3339();
    assert_eq!(format_relative_time(&t), "2h 10m");
}

#[test]
fn test_format_relative_time_days_and_hours() {
    let now = Local::now();
    let t = (now - Duration::days(3) - Duration::hours(5)).to_rfc3339();
    assert_eq!(format_relative_time(&t), "3d 5h");
}

#[test]
fn test_format_relative_time_many_days() {
    let now = Local::now();
    let t = (now - Duration::days(10)).to_rfc3339();
    assert_eq!(format_relative_time(&t), "10d");
}

#[test]
fn test_format_relative_time_exactly_7_days() {
    let now = Local::now();
    let t = (now - Duration::days(7)).to_rfc3339();
    assert_eq!(format_relative_time(&t), "7d");
}

#[test]
fn test_format_relative_time_at_fixed_instant() {
    let now = parse_ts("2024-01-02T12:00:00Z").unwrap();
    assert_eq!(format_relative_time_at("2024-01-02T11:59:01Z", now), "now");
    assert_eq!(format_relative_time_at("2024-01-02T11:00:00Z", now), "1h 0m");
    assert_eq!(format_relative_time_at("2023-12-26T12:00:00+02:00", now), "7d");
    assert_eq!(format_relative_time_at("not a time", now), "not a time");
}

#[test]
fn test_filter_prs_matches_title_author_repo_and_number() {
    let prs = vec![
        pr("1", 12, "Fix Parser", "alice", "org/alpha"),
        pr("2", 34, "Docs", "bob", "org/beta"),
        pr("3", 56, "Refactor", "carol", "team/parser"),
    ];
    let by_title = filter_prs(&prs, "parser");
    assert_eq!(by_title.len(), 2);
    assert_eq!(by_title[0].id, "1");
    assert_eq!(by_title[1].id, "3");
    assert_eq!(filter_prs(&prs, "BOB").len(), 1);
    assert_eq!(filter_prs(&prs, "bob")[0].id, "2");
    assert_eq!(filter_prs(&prs, "#34")[0].id, "2");
    assert_eq!(filter_prs(&prs, "").len(), 3);
}

#[test]
fn test_active_tab_by_mode() {
    assert_eq!(active_tab(&AppMode::Normal), 0);
    assert_eq!(active_tab(&AppMode::Search), 0);
    assert_eq!(active_tab(&AppMode::Archive), 1);
    assert_eq!(active_tab(&AppMode::Settings), 2);
    assert_eq!(active_tab(&AppMode::ThemePicker), 2);
}

#[test]
fn test_theme_slugs_lists_every_theme() {
    // The theme picker previews each theme in the order the theme crate lists them.
    let now = parse_ts("2024-01-02T12:00:00Z").unwrap();
    let mut app = App::new(AppConfig::default(), vec![], vec![], true);
    app.mode = AppMode::ThemePicker;
    app.theme_picker_index = 1;
    let mut slugs = Vec::new();
    app.handle_key(Key { code: KeyCode::Char('k'), ctrl: false }, now, 0);
    slugs.push(app.config.theme.clone());
    for _ in 0..16 {
        app.handle_key(Key { code: KeyCode::Char('j'), ctrl: false }, now, 0);
        slugs.push(app.config.theme.clone());
    }
    let expected = [
        "dracula", "one-dark-pro", "nord", "catppuccin-mocha", "catppuccin-latte", "gruvbox-dark",
        "gruvbox-light", "tokyo-night", "solarized-dark", "solarized-light", "monokai-pro", "rose-pine",
        "kanagawa", "everforest", "cyberpunk", "midnight-commander",
    ];
    assert_eq!(&slugs[..16], &expected[..]);
    // The last theme stays selected at the end of the list.
    assert_eq!(slugs[16], "midnight-commander");
    assert_eq!(app.theme_picker_index, 15);
}

#[test]
fn test_comment_delta_splits_seen_and_new() {
    let mut p = pr("1", 1, "Test PR", "author", "repo");
    p.unresolved_count = 3;
    p.total_resolvable_count = 3;
    p.conversational_count = 1;
    p.last_seen_at = Some("some-time".to_string());
    p.last_seen_total_resolvable_count = 1;
    p.last_seen_conversational_count = 0;
    let d = ghwatch::ui::components::list::comment_delta(&p);
    assert_eq!((d.unresolved_old, d.unresolved_new), (1, 2));
    assert_eq!((d.conversational_old, d.conversational_new), (0, 1));
    p.last_seen_at = None;
    let d = ghwatch::ui::components::list::comment_delta(&p);
    assert_eq!((d.unresolved_old, d.unresolved_new, d.conversational_old, d.conversational_new), (3, 0, 1, 0));
}

#[test]
fn test_fit_title_truncates_with_ellipsis() {
    let (t, pad) = fit_title("Test PR", 10);
    assert_eq!(t, "Test PR");
    assert_eq!(pad, 3);
    let (t, pad) = fit_title("A very long title", 6);
    assert_eq!(t, "A ver…");
    assert_eq!(pad, 0);
    let (t, _) = fit_title("abc", 0);
    assert_eq!(t, "…");
    let p = pr("1", 1, "Test PR", "author", "repo");
    // 100 - (2 + 1 + 2 + "#1 " + " Open " + " Pending " + " [?] ")
    assert_eq!(title_room(&p, 100), 100 - (5 + 3 + 6 + 9 + 5));
    assert_eq!(title_room(&p, 10), 0);
}

#[test]
fn test_mergeable_badges() {
    assert_eq!(mergeable_badge(MergeableStatus::Mergeable), " [M] ");
    assert_eq!(mergeable_badge(MergeableStatus::Conflicting), " [C] ");
    assert_eq!(mergeable_badge(MergeableStatus::Unknown), " [?] ");
}

#[test]
fn test_reviewers_text_and_check_outcome() {
    assert_eq!(reviewers_text(&vec![]), "None");
    let rs = vec![
        Reviewer { login: "bob".to_string(), status: "APPROVED".to_string() },
        Reviewer { login: "eve".to_string(), status: "PENDING".to_string() },
    ];
    assert_eq!(reviewers_text(&rs), "bob(APPROVED), eve(PENDING)");
    let mut c = CheckRun { name: "b".to_string(), status: "queued".to_string(), conclusion: None, url: String::new() };
    assert_eq!(check_outcome(&c), CheckOutcome::Other);
    c.conclusion = Some("success".to_string());
    assert_eq!(check_outcome(&c), CheckOutcome::Success);
    c.conclusion = Some("error".to_string());
    assert_eq!(check_outcome(&c), CheckOutcome::Failure);
}

#[test]
fn test_reason_labels_sorted() {
    let set = ReasonSet::from_slice(&[TriggerReason::NewComments, TriggerReason::CiFailed, TriggerReason::Approved]);
    assert_eq!(reason_labels(&set), vec!["Approved — ready to merge", "CI failed", "New comments"]);
}

#[test]
fn test_render_comment_count_with_delta() {
    let mut p = pr("1", 1, "Test PR", "author", "repo");
    p.additions = 10;
    p.deletions = 5;
    p.comment_count = 4;
    p.unresolved_count = 3;
    p.total_resolvable_count = 3;
    p.conversational_count = 1;
    p.head_ref = "main".to_string();
    p.last_seen_at = Some("some-time".to_string());
    p.last_seen_unresolved_count = 1;
    p.last_seen_total_resolvable_count = 1;
    p.last_seen_conversational_count = 0;
    // unresolved_new = 3 - 1 = 2, unresolved_old = 3 - 2 = 1, conversational_new = 1 - 0 = 1.
    let pieces = comment_pieces(&p);
    let line: String = pieces.iter().map(|s| s.text.as_str()).collect();
    assert!(line.contains("1+2/3 (0+1)"), "Comment string should contain delta. Got: {line}");
    let fresh: Vec<&str> = pieces.iter().filter(|s| s.fresh).map(|s| s.text.as_str()).collect();
    assert_eq!(fresh, vec!["+2", "+1"]);
}

#[test]
fn test_comment_pieces_without_new_comments() {
    let mut p = pr("1", 1, "Test PR", "author", "repo");
    p.unresolved_count = 2;
    p.total_resolvable_count = 5;
    p.conversational_count = 7;
    let line: String = comment_pieces(&p).iter().map(|s| s.text.as_str()).collect();
    assert_eq!(line, "2/5 (7) ");
}

#[test]
fn test_shown_content_cuts_long_text_at_97_bytes() {
    let long = "a".repeat(120);
    assert_eq!(shown_content(&long), format!("{}...", "a".repeat(97)));
    let exact = "b".repeat(100);
    assert_eq!(shown_content(&exact), exact);
}

#[test]
fn test_shown_content_counts_bytes_not_characters() {
    // 48 two-byte characters take 96 bytes, then one ASCII byte reaches 97.
    let text = format!("{}x{}", "é".repeat(48), "y".repeat(10));
    assert_eq!(shown_content(&text), format!("{}x...", "é".repeat(48)));
    // 99 ASCII bytes and a two-byte character take 101 bytes: cut although only 100 characters.
    let text = format!("{}é", "c".repeat(99));
    assert_eq!(shown_content(&text), format!("{}...", "c".repeat(97)));
}
