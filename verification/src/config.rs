//! User settings: queries to poll, display preferences and attention rules.
use vstd::prelude::*;
use crate::domain::attention::{AttentionConfig, TriggerReason};

verus! {

/// How the pull request list is split into sections.
#[derive(Debug, Clone, Copy, PartialEq, Eq, Structural)]
pub enum GroupMode {
    /// No grouping (`None` in the settings file).
    Ungrouped,
    Repo,
    Author,
    Status,
    MyVsOther,
}

/// A metric that the second line of a list item can show.
#[derive(Debug, Clone, Copy, PartialEq, Eq, Structural)]
pub enum Column {
    Author,
    Age,
    Diff,
    Comments,
}

/// The application's settings.
#[derive(Debug)]
pub struct AppConfig {
    pub queries: Vec<QueryConfig>,
    pub polling_interval_ms: u64,
    pub use_nerd_fonts: bool,
    pub current_user: String,
    pub unfollow_timeout_mins: u64,
    pub show_status_bar: bool,
    pub group_by: GroupMode,
    pub theme: String,
    pub visible_columns: Vec<Column>,
    pub attention: AttentionConfig,
    pub max_age_days: Option<u32>,
}

/// A named GitHub search that is polled on its own interval.
#[derive(Debug)]
pub struct QueryConfig {
    pub name: String,
    pub search: String,
    pub interval: String,
    pub enabled: bool,
}

impl QueryConfig {
    /// A copy of the query.
    pub fn duplicate(&self) -> (r: QueryConfig)
        ensures
            r == *self,
    {
        QueryConfig {
            name: self.name.clone(),
            search: self.search.clone(),
            interval: self.interval.clone(),
            enabled: self.enabled,
        }
    }
}

/// The default of the flags that default to on.
pub fn default_true() -> (r: bool)
    ensures
        r,
{
    true
}

/// The default theme name.
pub fn default_theme() -> (r: String)
    ensures
        r@ == "dark"@,
{
    String::from_str("dark")
}

/// The default visible columns: author, age, diff size, comment count.
pub fn default_columns() -> (r: Vec<Column>)
    ensures
        r@ == seq![Column::Author, Column::Age, Column::Diff, Column::Comments],
{
    let mut v = Vec::new();
    v.push(Column::Author);
    v.push(Column::Age);
    v.push(Column::Diff);
    v.push(Column::Comments);
    v
}

impl AppConfig {
    /// The settings used before the user has written any: one enabled query
    /// for the user's own open pull requests, polled every minute, a 30 second
    /// tick, nerd fonts and status bar on, no grouping, the dark theme, every
    /// column, unfollowing after an hour and the default attention rules.
    pub fn default() -> (r: AppConfig)
        ensures
            r.queries@.len() == 1,
            r.queries@[0].name@ == "My PRs"@,
            r.queries@[0].search@ == "is:pr author:@me state:open"@,
            r.queries@[0].interval@ == "60s"@,
            r.queries@[0].enabled,
            r.polling_interval_ms == 30000,
            r.use_nerd_fonts,
            r.current_user@ == Seq::<char>::empty(),
            r.unfollow_timeout_mins == 60,
            r.show_status_bar,
            r.group_by == GroupMode::Ungrouped,
            r.theme@ == "dark"@,
            r.visible_columns@ == seq![Column::Author, Column::Age, Column::Diff, Column::Comments],
            r.attention.quiet_period_mins == 15,
            r.attention.disabled_reasons@ == Set::<TriggerReason>::empty(),
            !r.attention.open_in_browser_marks_seen,
            r.max_age_days is None,
    {
        let mut queries = Vec::new();
        queries.push(QueryConfig {
            name: String::from_str("My PRs"),
            search: String::from_str("is:pr author:@me state:open"),
            interval: String::from_str("60s"),
            enabled: true,
        });
        AppConfig {
            queries,
            polling_interval_ms: 30000,
            use_nerd_fonts: true,
            current_user: String::new(),
            unfollow_timeout_mins: 60,
            show_status_bar: true,
            group_by: GroupMode::Ungrouped,
            theme: String::from_str("dark"),
            visible_columns: default_columns(),
            attention: AttentionConfig::default(),
            max_age_days: None,
        }
    }
}

} // verus!
