//! What each key does in each mode.
use vstd::prelude::*;
use crate::app::{App, AppMode, Effect, SortMode, replaced, sort_rel};
use crate::app::merge::same_polled;
use crate::config::GroupMode;
use crate::domain::attention::{AttentionStateView, apply_mark_seen, apply_archive};
use crate::domain::pr::clone_prs;
use crate::domain::time::Timestamp;
use crate::config::{AppConfig, Column, QueryConfig};
use crate::domain::attention::{spec_list_has, list_has};
use crate::domain::pr::PullRequest;
use crate::domain::pr_list::{PRList, clamp_selection};
use crate::ui::components::settings::{QUERIES_START, SettingAction, get_setting_action, spec_setting_action};
use crate::ui::theme::{theme_slugs, theme_slug_list, string_views};
use crate::util::text::{
    chars_of, push_char, string_from_chars, str_eq, spec_trim, trim_chars, seq_starts_with, vec_starts_with,
    split_on, split_chars, views_of, spec_parse_u32, parse_u32_chars, first_index_of, find_char, slice_chars,
    push_chars,
};

verus! {

/// A key, as the terminal reports it.
#[derive(Debug, Clone, Copy, PartialEq, Eq, Structural)]
pub enum KeyCode {
    Char(char),
    Enter,
    Esc,
    Backspace,
    Tab,
    Up,
    Down,
    Left,
    Right,
    Other,
}

/// A key press and whether Control was held.
#[derive(Debug, Clone, Copy, PartialEq, Eq, Structural)]
pub struct Key {
    pub code: KeyCode,
    pub ctrl: bool,
}

/// A text field after a key: Backspace removes the last character, a
/// character is appended, other keys leave it.
pub open spec fn text_edit(buf: Seq<char>, code: KeyCode) -> Seq<char> {
    match code {
        KeyCode::Backspace => if buf.len() > 0 { buf.drop_last() } else { buf },
        KeyCode::Char(c) => buf.push(c),
        _ => buf,
    }
}

/// Removes the last character of `s`, if any (as `String::pop`).
pub fn pop_char(s: &mut String)
    ensures
        final(s)@ == (if old(s)@.len() > 0 { old(s)@.drop_last() } else { old(s)@ }),
{
    let cs = chars_of(s.as_str());
    if cs.len() > 0 {
        let kept = slice_chars(&cs, 0, cs.len() - 1);
        *s = string_from_chars(&kept);
        assert(kept@ =~= old(s)@.drop_last());
    }
}

/// Applies a key to a text field (see `text_edit`).
fn edit_text(s: &mut String, code: KeyCode)
    ensures
        final(s)@ == text_edit(old(s)@, code),
{
    match code {
        KeyCode::Backspace => pop_char(s),
        KeyCode::Char(c) => push_char(s, c),
        _ => {},
    }
}

/// The repository and number that a follow input names: a URL whose
/// path gives owner, repository and number (`https://host/owner/repo/pull/N`),
/// or `owner/repo#N`; white space around the input, and around the parts
/// of the second form, is ignored.
pub open spec fn spec_follow_target(input: Seq<char>) -> Option<(Seq<char>, u32)> {
    let t = spec_trim(input);
    if seq_starts_with(t, "http"@) {
        let parts = split_on(t, '/');
        if parts.len() >= 7 {
            match spec_parse_u32(parts[6]) {
                Some(n) => Some((parts[3] + "/"@ + parts[4], n)),
                None => None,
            }
        } else {
            None
        }
    } else {
        match first_index_of(t, '#') {
            Some(i) => match spec_parse_u32(spec_trim(t.skip(i + 1))) {
                Some(n) => Some((spec_trim(t.take(i)), n)),
                None => None,
            },
            None => None,
        }
    }
}

/// The effects of following an input: a fetch of the pull request it
/// names, or none.
pub open spec fn follow_effects(input: Seq<char>, effects: Seq<Effect>) -> bool {
    match spec_follow_target(input) {
        Some(t) => effects.len() == 1 && (effects[0] matches Effect::FollowPr(repo, n) && repo@ == t.0 && n == t.1),
        None => effects.len() == 0,
    }
}

impl App {
    /// Follows the pull request that the input names (see
    /// `spec_follow_target`): the effect fetches it; nothing when the input
    /// names none.
    pub fn follow_pr(&self, input: &str) -> (effects: Vec<Effect>)
        ensures
            follow_effects(input@, effects@),
    {
        let mut effects: Vec<Effect> = Vec::new();
        let raw = chars_of(input);
        let t = trim_chars(&raw);
        let http = chars_of("http");
        if vec_starts_with(&t, &http) {
            let parts = split_chars(&t, '/');
            if parts.len() >= 7 {
                match parse_u32_chars(&parts[6]) {
                    Some(n) => {
                        let mut repo = string_from_chars(&parts[3]);
                        push_char(&mut repo, '/');
                        push_chars(&mut repo, &parts[4]);
                        proof {
                            assert(views_of(parts@)[3] == parts@[3]@);
                            assert(views_of(parts@)[4] == parts@[4]@);
                            assert(views_of(parts@)[6] == parts@[6]@);
                            assert(parts@[3]@.push('/') + parts@[4]@ =~= parts@[3]@ + "/"@ + parts@[4]@) by {
                                reveal_strlit("/");
                            }
                        }
                        effects.push(Effect::FollowPr(repo, n));
                    },
                    None => {
                        proof { assert(views_of(parts@)[6] == parts@[6]@); }
                    },
                }
            }
        } else {
            match find_char(&t, '#') {
                Some(i) => {
                    let head = slice_chars(&t, 0, i);
                    let tail = slice_chars(&t, i + 1, t.len());
                    assert(head@ =~= t@.take(i as int));
                    assert(tail@ =~= t@.skip(i + 1));
                    let num = trim_chars(&tail);
                    match parse_u32_chars(&num) {
                        Some(n) => {
                            let repo_chars = trim_chars(&head);
                            effects.push(Effect::FollowPr(string_from_chars(&repo_chars), n));
                        },
                        None => {},
                    }
                },
                None => {},
            }
        }
        effects
    }
}

/// `n - 1`, or 0 for 0 (as `usize::saturating_sub(1)`).
pub open spec fn less_one(n: int) -> int {
    if n > 0 { n - 1 } else { 0 }
}

/// A key in the search prompt: Esc leaves it and clears the text, Enter
/// leaves it keeping the text, other keys edit the text.
pub open spec fn search_step(a0: App, a1: App, key: Key, eff: Seq<Effect>) -> bool {
    &&& eff.len() == 0
    &&& match key.code {
        KeyCode::Esc => a1.input_buffer@ == Seq::<char>::empty()
            && a1 == (App { mode: AppMode::Normal, input_buffer: a1.input_buffer, ..a0 }),
        KeyCode::Enter => a1 == (App { mode: AppMode::Normal, ..a0 }),
        code => a1.input_buffer@ == text_edit(a0.input_buffer@, code)
            && a1 == (App { input_buffer: a1.input_buffer, ..a0 }),
    }
}

/// A key in the follow prompt: Esc leaves it and clears the text, Enter
/// leaves it, clears the text and follows what it named, other keys edit
/// the text.
pub open spec fn follow_step(a0: App, a1: App, key: Key, eff: Seq<Effect>) -> bool {
    match key.code {
        KeyCode::Esc => eff.len() == 0 && a1.input_buffer@ == Seq::<char>::empty()
            && a1 == (App { mode: AppMode::Normal, input_buffer: a1.input_buffer, ..a0 }),
        KeyCode::Enter => follow_effects(a0.input_buffer@, eff) && a1.input_buffer@ == Seq::<char>::empty()
            && a1 == (App { mode: AppMode::Normal, input_buffer: a1.input_buffer, ..a0 }),
        code => eff.len() == 0 && a1.input_buffer@ == text_edit(a0.input_buffer@, code)
            && a1 == (App { input_buffer: a1.input_buffer, ..a0 }),
    }
}

/// A key on the help screen: Esc, `?` or `q` close it.
pub open spec fn help_step(a0: App, a1: App, key: Key, eff: Seq<Effect>) -> bool {
    &&& eff.len() == 0
    &&& if key.code == KeyCode::Esc || key.code == KeyCode::Char('?') || key.code == KeyCode::Char('q') {
        a1 == (App { mode: AppMode::Normal, ..a0 })
    } else {
        a1 == a0
    }
}

/// A key on a log entry: Esc, Enter or `q` go back to the log.
pub open spec fn log_detail_step(a0: App, a1: App, key: Key, eff: Seq<Effect>) -> bool {
    &&& eff.len() == 0
    &&& if key.code == KeyCode::Esc || key.code == KeyCode::Enter || key.code == KeyCode::Char('q') {
        a1 == (App { mode: AppMode::Diagnostic, ..a0 })
    } else {
        a1 == a0
    }
}

/// A key on the log of GitHub calls, which holds `calls` entries: `j`/Down
/// and `k`/Up move within it, Enter opens the entry, `y` copies its
/// command, Esc or `q` go back to the settings.
pub open spec fn diagnostic_step(a0: App, a1: App, key: Key, calls: usize, eff: Seq<Effect>) -> bool {
    let i = a0.diagnostic_selected_index;
    match key.code {
        KeyCode::Char('j') | KeyCode::Down => eff.len() == 0 && if i < less_one(calls as int) {
            a1 == (App { diagnostic_selected_index: (i + 1) as usize, ..a0 })
        } else {
            a1 == a0
        },
        KeyCode::Char('k') | KeyCode::Up => eff.len() == 0 && if i > 0 {
            a1 == (App { diagnostic_selected_index: (i - 1) as usize, ..a0 })
        } else {
            a1 == a0
        },
        KeyCode::Enter => eff.len() == 0 && a1 == (App { mode: AppMode::LogDetail, ..a0 }),
        KeyCode::Char('y') => a1 == a0 && if i < calls {
            eff.len() == 1 && eff[0] == Effect::CopyDiagnostic(i)
        } else {
            eff.len() == 0
        },
        KeyCode::Esc | KeyCode::Char('q') => eff.len() == 0 && a1 == (App { mode: AppMode::Settings, ..a0 }),
        _ => eff.len() == 0 && a1 == a0,
    }
}

/// A key in the query name prompt: Enter goes on to the search text when a
/// name was typed, Esc cancels back to the settings, other keys edit.
pub open spec fn add_query_name_step(a0: App, a1: App, key: Key, eff: Seq<Effect>) -> bool {
    &&& eff.len() == 0
    &&& match key.code {
        KeyCode::Enter => if a0.query_name_buffer@.len() > 0 {
            a1 == (App { mode: AppMode::AddQuerySearch, ..a0 })
        } else {
            a1 == a0
        },
        KeyCode::Esc => a1 == (App { mode: AppMode::Settings, editing_query_index: None, ..a0 }),
        code => a1.query_name_buffer@ == text_edit(a0.query_name_buffer@, code)
            && a1 == (App { query_name_buffer: a1.query_name_buffer, ..a0 }),
    }
}

/// A key in the query search prompt: Enter runs the search as a test when
/// one was typed and asks for confirmation, Esc goes back to the name,
/// other keys edit.
pub open spec fn add_query_search_step(a0: App, a1: App, key: Key, eff: Seq<Effect>) -> bool {
    match key.code {
        KeyCode::Enter => if a0.query_search_buffer@.len() > 0 {
            &&& eff.len() == 1
            &&& eff[0] matches Effect::TestQuery(q) && q@ == a0.query_search_buffer@
            &&& a1 == (App {
                is_testing_query: true,
                query_test_results: None,
                query_test_error: None,
                mode: AppMode::ConfirmQuery,
                ..a0
            })
        } else {
            eff.len() == 0 && a1 == a0
        },
        KeyCode::Esc => eff.len() == 0 && a1 == (App { mode: AppMode::AddQueryName, ..a0 }),
        code => eff.len() == 0 && a1.query_search_buffer@ == text_edit(a0.query_search_buffer@, code)
            && a1 == (App { query_search_buffer: a1.query_search_buffer, ..a0 }),
    }
}

/// Saving the settings, then restarting polling where this instance polls.
pub open spec fn save_and_reload(eff: Seq<Effect>, is_writer: bool) -> bool {
    if is_writer {
        eff == seq![Effect::SaveConfig, Effect::RestartPolling]
    } else {
        eff == seq![Effect::SaveConfig]
    }
}

/// The limit on the age of polled pull requests that the maximum-age
/// prompt holds: none when it is empty or reads 0, the number it reads
/// otherwise, and the limit as it was when it reads no number.
pub open spec fn typed_max_age(buf: Seq<char>, before: Option<u32>) -> Option<u32> {
    if buf.len() == 0 {
        None
    } else {
        match spec_parse_u32(buf) {
            Some(n) => if n == 0 { None } else { Some(n) },
            None => before,
        }
    }
}

/// A key in the maximum-age prompt: Enter stores the typed limit (see
/// `typed_max_age`), saves and reloads the settings and goes back to them;
/// Esc goes back; Backspace deletes; digits are typed; other keys do
/// nothing.
pub open spec fn edit_max_age_step(a0: App, a1: App, key: Key, eff: Seq<Effect>) -> bool {
    match key.code {
        KeyCode::Enter => {
            &&& save_and_reload(eff, a0.is_writer)
            &&& a1 == (App {
                config: crate::config::AppConfig {
                    max_age_days: typed_max_age(a0.max_age_days_buffer@, a0.config.max_age_days),
                    ..a0.config
                },
                mode: AppMode::Settings,
                ..a0
            })
        },
        KeyCode::Esc => eff.len() == 0 && a1 == (App { mode: AppMode::Settings, ..a0 }),
        KeyCode::Char(c) => eff.len() == 0 && if '0' <= c && c <= '9' {
            a1.max_age_days_buffer@ == a0.max_age_days_buffer@.push(c)
                && a1 == (App { max_age_days_buffer: a1.max_age_days_buffer, ..a0 })
        } else {
            a1 == a0
        },
        code => eff.len() == 0 && a1.max_age_days_buffer@ == text_edit(a0.max_age_days_buffer@, code)
            && a1 == (App { max_age_days_buffer: a1.max_age_days_buffer, ..a0 }),
    }
}

/// A key when confirming a query: `y` or Enter, once the test ran without
/// error, stores the query (replacing the one being edited, or appended as
/// enabled with a 60 second interval), saves and reloads the settings;
/// `n` or Esc go back to the search text.
pub open spec fn confirm_query_step(a0: App, a1: App, key: Key, eff: Seq<Effect>) -> bool {
    let qs0 = a0.config.queries@;
    let qs1 = a1.config.queries@;
    if (key.code == KeyCode::Char('y') || key.code == KeyCode::Enter) && !a0.is_testing_query
        && a0.query_test_error is None {
        &&& save_and_reload(eff, a0.is_writer)
        &&& a1 == (App {
            config: a1.config,
            editing_query_index: None,
            mode: AppMode::Settings,
            ..a0
        })
        &&& a1.config == (crate::config::AppConfig { queries: a1.config.queries, ..a0.config })
        &&& match a0.editing_query_index {
            Some(idx) => if idx < qs0.len() {
                &&& qs1.len() == qs0.len()
                &&& forall|i: int| 0 <= i < qs0.len() && i != idx ==> #[trigger] qs1[i] == qs0[i]
                &&& qs1[idx as int].name@ == a0.query_name_buffer@
                &&& qs1[idx as int].search@ == a0.query_search_buffer@
                &&& qs1[idx as int].interval == qs0[idx as int].interval
                &&& qs1[idx as int].enabled == qs0[idx as int].enabled
            } else {
                qs1 == qs0
            },
            None => {
                &&& qs1.len() == qs0.len() + 1
                &&& qs1.take(qs0.len() as int) == qs0
                &&& qs1.last().name@ == a0.query_name_buffer@
                &&& qs1.last().search@ == a0.query_search_buffer@
                &&& qs1.last().interval@ == "60s"@
                &&& qs1.last().enabled
            },
        }
    } else if key.code == KeyCode::Char('n') || key.code == KeyCode::Esc {
        eff.len() == 0 && a1 == (App { mode: AppMode::AddQuerySearch, ..a0 })
    } else {
        eff.len() == 0 && a1 == a0
    }
}

/// A key when confirming a deletion: `y` or Enter removes the query marked
/// for deletion (keeping the settings row in range), saves and reloads the
/// settings; `n` or Esc cancel. Either way the mark goes and the settings
/// show again.
pub open spec fn delete_query_step(a0: App, a1: App, key: Key, eff: Seq<Effect>) -> bool {
    let qs0 = a0.config.queries@;
    if key.code == KeyCode::Char('y') || key.code == KeyCode::Enter {
        match a0.deleting_query_index {
            Some(idx) => if idx < qs0.len() {
                let max_idx = crate::ui::components::settings::QUERIES_START + qs0.len() - 1;
                let sel = a0.settings_selected_index;
                &&& save_and_reload(eff, a0.is_writer)
                &&& a1.config == (crate::config::AppConfig { queries: a1.config.queries, ..a0.config })
                &&& a1.config.queries@ == qs0.remove(idx as int)
                &&& a1 == (App {
                    config: a1.config,
                    deleting_query_index: None,
                    mode: AppMode::Settings,
                    settings_selected_index: if sel > max_idx { max_idx as usize } else { sel },
                    ..a0
                })
            } else {
                eff.len() == 0 && a1 == (App { deleting_query_index: None, mode: AppMode::Settings, ..a0 })
            },
            None => eff.len() == 0 && a1 == (App { mode: AppMode::Settings, ..a0 }),
        }
    } else if key.code == KeyCode::Char('n') || key.code == KeyCode::Esc {
        eff.len() == 0 && a1 == (App { deleting_query_index: None, mode: AppMode::Settings, ..a0 })
    } else {
        eff.len() == 0 && a1 == a0
    }
}

/// A key in the theme picker: `j`/Down and `k`/Up move through the themes
/// and show the one reached; Enter keeps it and saves the settings; Esc
/// puts back the theme the picker opened with.
pub open spec fn theme_picker_step(a0: App, a1: App, key: Key, eff: Seq<Effect>) -> bool {
    let i = a0.theme_picker_index;
    let themes = theme_slug_list();
    match key.code {
        KeyCode::Char('j') | KeyCode::Down => eff.len() == 0 && if i < themes.len() - 1 {
            &&& a1.config.theme@ == themes[i + 1]
            &&& a1.config == (crate::config::AppConfig { theme: a1.config.theme, ..a0.config })
            &&& a1 == (App { theme_picker_index: (i + 1) as usize, config: a1.config, ..a0 })
        } else {
            a1 == a0
        },
        KeyCode::Char('k') | KeyCode::Up => eff.len() == 0 && if i > 0 {
            &&& a1.config.theme@ == themes[i - 1]
            &&& a1.config == (crate::config::AppConfig { theme: a1.config.theme, ..a0.config })
            &&& a1 == (App { theme_picker_index: (i - 1) as usize, config: a1.config, ..a0 })
        } else {
            a1 == a0
        },
        KeyCode::Enter => eff == seq![Effect::SaveConfig]
            && a1 == (App { theme_picker_original: None, mode: AppMode::Settings, ..a0 }),
        KeyCode::Esc => eff.len() == 0 && match a0.theme_picker_original {
            Some(t) => a1 == (App {
                config: crate::config::AppConfig { theme: t, ..a0.config },
                theme_picker_original: None,
                mode: AppMode::Settings,
                ..a0
            }),
            None => a1 == (App { mode: AppMode::Settings, ..a0 }),
        },
        _ => eff.len() == 0 && a1 == a0,
    }
}

impl App {
    pub(crate) fn search_key(&mut self, key: Key) -> (eff: Vec<Effect>)
        ensures
            search_step(*old(self), *final(self), key, eff@),
    {
        match key.code {
            KeyCode::Esc => {
                self.mode = AppMode::Normal;
                self.input_buffer = String::new();
            },
            KeyCode::Enter => {
                self.mode = AppMode::Normal;
            },
            code => edit_text(&mut self.input_buffer, code),
        }
        Vec::new()
    }

    pub(crate) fn follow_key(&mut self, key: Key) -> (eff: Vec<Effect>)
        ensures
            follow_step(*old(self), *final(self), key, eff@),
    {
        match key.code {
            KeyCode::Esc => {
                self.mode = AppMode::Normal;
                self.input_buffer = String::new();
                Vec::new()
            },
            KeyCode::Enter => {
                let eff = self.follow_pr(self.input_buffer.as_str());
                self.input_buffer = String::new();
                self.mode = AppMode::Normal;
                eff
            },
            code => {
                edit_text(&mut self.input_buffer, code);
                Vec::new()
            },
        }
    }

    pub(crate) fn help_key(&mut self, key: Key) -> (eff: Vec<Effect>)
        ensures
            help_step(*old(self), *final(self), key, eff@),
    {
        if key.code == KeyCode::Esc || key.code == KeyCode::Char('?') || key.code == KeyCode::Char('q') {
            self.mode = AppMode::Normal;
        }
        Vec::new()
    }

    pub(crate) fn log_detail_key(&mut self, key: Key) -> (eff: Vec<Effect>)
        ensures
            log_detail_step(*old(self), *final(self), key, eff@),
    {
        if key.code == KeyCode::Esc || key.code == KeyCode::Enter || key.code == KeyCode::Char('q') {
            self.mode = AppMode::Diagnostic;
        }
        Vec::new()
    }

    pub(crate) fn diagnostic_key(&mut self, key: Key, calls: usize) -> (eff: Vec<Effect>)
        ensures
            diagnostic_step(*old(self), *final(self), key, calls, eff@),
    {
        let mut eff: Vec<Effect> = Vec::new();
        match key.code {
            KeyCode::Char('j') | KeyCode::Down => {
                let max = if calls > 0 { calls - 1 } else { 0 };
                if self.diagnostic_selected_index < max {
                    self.diagnostic_selected_index = self.diagnostic_selected_index + 1;
                }
            },
            KeyCode::Char('k') | KeyCode::Up => {
                if self.diagnostic_selected_index > 0 {
                    self.diagnostic_selected_index = self.diagnostic_selected_index - 1;
                }
            },
            KeyCode::Enter => {
                self.mode = AppMode::LogDetail;
            },
            KeyCode::Char('y') => {
                if self.diagnostic_selected_index < calls {
                    eff.push(Effect::CopyDiagnostic(self.diagnostic_selected_index));
                }
            },
            KeyCode::Esc | KeyCode::Char('q') => {
                self.mode = AppMode::Settings;
            },
            _ => {},
        }
        eff
    }

    pub(crate) fn add_query_name_key(&mut self, key: Key) -> (eff: Vec<Effect>)
        ensures
            add_query_name_step(*old(self), *final(self), key, eff@),
    {
        match key.code {
            KeyCode::Enter => {
                if !self.query_name_buffer.as_str().is_empty() {
                    self.mode = AppMode::AddQuerySearch;
                }
            },
            KeyCode::Esc => {
                self.editing_query_index = None;
                self.mode = AppMode::Settings;
            },
            code => edit_text(&mut self.query_name_buffer, code),
        }
        Vec::new()
    }

    pub(crate) fn add_query_search_key(&mut self, key: Key) -> (eff: Vec<Effect>)
        ensures
            add_query_search_step(*old(self), *final(self), key, eff@),
    {
        let mut eff: Vec<Effect> = Vec::new();
        match key.code {
            KeyCode::Enter => {
                if !self.query_search_buffer.as_str().is_empty() {
                    self.is_testing_query = true;
                    self.query_test_results = None;
                    self.query_test_error = None;
                    self.mode = AppMode::ConfirmQuery;
                    eff.push(Effect::TestQuery(self.query_search_buffer.clone()));
                }
            },
            KeyCode::Esc => {
                self.mode = AppMode::AddQueryName;
            },
            code => edit_text(&mut self.query_search_buffer, code),
        }
        eff
    }

    /// The effects of saving the settings and reloading them.
    fn save_and_reload_effects(&self) -> (eff: Vec<Effect>)
        ensures
            save_and_reload(eff@, self.is_writer),
    {
        let mut eff: Vec<Effect> = Vec::new();
        eff.push(Effect::SaveConfig);
        if self.is_writer {
            eff.push(Effect::RestartPolling);
            assert(eff@ =~= seq![Effect::SaveConfig, Effect::RestartPolling]);
        } else {
            assert(eff@ =~= seq![Effect::SaveConfig]);
        }
        eff
    }

    pub(crate) fn confirm_query_key(&mut self, key: Key) -> (eff: Vec<Effect>)
        ensures
            confirm_query_step(*old(self), *final(self), key, eff@),
    {
        if (key.code == KeyCode::Char('y') || key.code == KeyCode::Enter) && !self.is_testing_query
            && self.query_test_error.is_none() {
            match self.editing_query_index {
                Some(idx) => {
                    if idx < self.config.queries.len() {
                        let q = QueryConfig {
                            name: self.query_name_buffer.clone(),
                            search: self.query_search_buffer.clone(),
                            interval: self.config.queries[idx].interval.clone(),
                            enabled: self.config.queries[idx].enabled,
                        };
                        self.config.queries.set(idx, q);
                    }
                },
                None => {
                    let interval = String::from_str("60s");
                    proof { reveal_strlit("60s"); }
                    self.config.queries.push(QueryConfig {
                        name: self.query_name_buffer.clone(),
                        search: self.query_search_buffer.clone(),
                        interval,
                        enabled: true,
                    });
                    assert(self.config.queries@.take(old(self).config.queries@.len() as int)
                        =~= old(self).config.queries@);
                },
            }
            self.editing_query_index = None;
            self.mode = AppMode::Settings;
            self.save_and_reload_effects()
        } else if key.code == KeyCode::Char('n') || key.code == KeyCode::Esc {
            self.mode = AppMode::AddQuerySearch;
            Vec::new()
        } else {
            Vec::new()
        }
    }

    pub(crate) fn edit_max_age_key(&mut self, key: Key) -> (eff: Vec<Effect>)
        ensures
            edit_max_age_step(*old(self), *final(self), key, eff@),
    {
        match key.code {
            KeyCode::Enter => {
                if self.max_age_days_buffer.as_str().is_empty() {
                    self.config.max_age_days = None;
                } else {
                    let chars = chars_of(self.max_age_days_buffer.as_str());
                    match parse_u32_chars(&chars) {
                        Some(n) => {
                            self.config.max_age_days = if n == 0 { None } else { Some(n) };
                        },
                        None => {},
                    }
                }
                self.mode = AppMode::Settings;
                self.save_and_reload_effects()
            },
            KeyCode::Esc => {
                self.mode = AppMode::Settings;
                Vec::new()
            },
            KeyCode::Char(c) => {
                if '0' <= c && c <= '9' {
                    push_char(&mut self.max_age_days_buffer, c);
                }
                Vec::new()
            },
            code => {
                edit_text(&mut self.max_age_days_buffer, code);
                Vec::new()
            },
        }
    }

    pub(crate) fn delete_query_key(&mut self, key: Key) -> (eff: Vec<Effect>)
        ensures
            delete_query_step(*old(self), *final(self), key, eff@),
    {
        if key.code == KeyCode::Char('y') || key.code == KeyCode::Enter {
            let mut eff: Vec<Effect> = Vec::new();
            match self.deleting_query_index {
                Some(idx) => {
                    self.deleting_query_index = None;
                    if idx < self.config.queries.len() {
                        self.config.queries.remove(idx);
                        let n = self.config.queries.len();
                        let start = crate::ui::components::settings::QUERIES_START;
                        if self.settings_selected_index > start && self.settings_selected_index - start > n {
                            self.settings_selected_index = start + n;
                        }
                        eff = self.save_and_reload_effects();
                    }
                },
                None => {},
            }
            self.mode = AppMode::Settings;
            eff
        } else if key.code == KeyCode::Char('n') || key.code == KeyCode::Esc {
            self.deleting_query_index = None;
            self.mode = AppMode::Settings;
            Vec::new()
        } else {
            Vec::new()
        }
    }

    /// Moves the theme picker to position `i` and shows that theme.
    fn theme_picker_move(&mut self, i: usize)
        requires
            i < 16,
        ensures
            final(self).config.theme@ == theme_slug_list()[i as int],
            final(self).config == (crate::config::AppConfig { theme: final(self).config.theme, ..old(self).config }),
            *final(self) == (App { theme_picker_index: i, config: final(self).config, ..*old(self) }),
    {
        let themes = theme_slugs();
        proof {
            assert(theme_slug_list().len() == 16);
            assert(string_views(themes@).len() == themes@.len());
            assert(string_views(themes@)[i as int] == themes@[i as int]@);
        }
        self.theme_picker_index = i;
        self.config.theme = themes[i].clone();
    }

    pub(crate) fn theme_picker_key(&mut self, key: Key) -> (eff: Vec<Effect>)
        requires
            old(self).theme_picker_index <= 16,
        ensures
            theme_picker_step(*old(self), *final(self), key, eff@),
    {
        let mut eff: Vec<Effect> = Vec::new();
        proof { assert(theme_slug_list().len() == 16); }
        match key.code {
            KeyCode::Char('j') | KeyCode::Down => {
                if self.theme_picker_index < 15 {
                    self.theme_picker_move(self.theme_picker_index + 1);
                }
            },
            KeyCode::Char('k') | KeyCode::Up => {
                if self.theme_picker_index > 0 {
                    self.theme_picker_move(self.theme_picker_index - 1);
                }
            },
            KeyCode::Enter => {
                self.theme_picker_original = None;
                self.mode = AppMode::Settings;
                eff.push(Effect::SaveConfig);
                assert(eff@ =~= seq![Effect::SaveConfig]);
            },
            KeyCode::Esc => {
                let mut original: Option<String> = None;
                std::mem::swap(&mut original, &mut self.theme_picker_original);
                match original {
                    Some(t) => {
                        self.config.theme = t;
                    },
                    None => {},
                }
                self.mode = AppMode::Settings;
            },
            _ => {},
        }
        eff
    }
}

/// The selection `PRList::set_selected_index(index)` makes on a list of `len`.
pub open spec fn index_set(len: int, index: int) -> int {
    if index < len { index } else if len > 0 { len - 1 } else { 0 }
}

/// The list holds `prs` with `sel` selected.
pub open spec fn list_is(l: PRList, prs: Seq<PullRequest>, sel: int) -> bool {
    l.spec_prs() == prs && l.spec_selected() == sel
}

/// `r` is `p` listed under the "manual" query as well.
pub open spec fn manually_followed(r: PullRequest, p: PullRequest) -> bool {
    &&& r == (PullRequest { matched_queries: r.matched_queries, ..p })
    &&& if spec_list_has(p.matched_queries@, "manual"@) {
        r.matched_queries@ == p.matched_queries@
    } else {
        &&& r.matched_queries@.len() == p.matched_queries@.len() + 1
        &&& r.matched_queries@.drop_last() == p.matched_queries@
        &&& r.matched_queries@.last()@ == "manual"@
    }
}

/// Showing the archive: it is reloaded, the first entry selected.
pub open spec fn to_archive(a0: App, a1: App, eff: Seq<Effect>) -> bool {
    let al = a0.archive_list;
    &&& list_is(a1.archive_list, al.spec_prs(), index_set(al.spec_prs().len() as int, 0))
    &&& a1 == (App { archive_list: a1.archive_list, mode: AppMode::Archive, ..a0 })
    &&& eff == seq![Effect::ReloadArchive]
}

/// A key in the archive: `j`/Down, `k`/Up, `g` and `G` move the selection;
/// `d` deletes the selected entry and saves the archive; `f` follows it
/// again (under the "manual" query), putting it first in the active list
/// and saving both lists; Left, `h` or Esc go to the pull requests, Right
/// or `l` to the settings, and `q` quits.
pub open spec fn archive_step(a0: App, a1: App, key: Key, eff: Seq<Effect>) -> bool {
    let al = a0.archive_list;
    let prs = al.spec_prs();
    let n = prs.len() as int;
    let sel = al.spec_selected();
    match key.code {
        KeyCode::Char('j') | KeyCode::Down => eff.len() == 0 && if sel < less_one(n) {
            list_is(a1.archive_list, prs, sel + 1) && a1 == (App { archive_list: a1.archive_list, ..a0 })
        } else {
            a1 == a0
        },
        KeyCode::Char('k') | KeyCode::Up => eff.len() == 0 && if sel > 0 {
            list_is(a1.archive_list, prs, sel - 1) && a1 == (App { archive_list: a1.archive_list, ..a0 })
        } else {
            a1 == a0
        },
        KeyCode::Char('g') => eff.len() == 0 && list_is(a1.archive_list, prs, index_set(n, 0))
            && a1 == (App { archive_list: a1.archive_list, ..a0 }),
        KeyCode::Char('G') => eff.len() == 0 && list_is(a1.archive_list, prs, index_set(n, less_one(n)))
            && a1 == (App { archive_list: a1.archive_list, ..a0 }),
        KeyCode::Char('d') => if sel < n {
            &&& list_is(a1.archive_list, prs.remove(sel), clamp_selection(sel, n - 1))
            &&& a1 == (App { archive_list: a1.archive_list, ..a0 })
            &&& eff == seq![Effect::SaveArchive]
        } else {
            eff.len() == 0 && a1 == a0
        },
        KeyCode::Char('f') => if sel < n {
            &&& list_is(a1.archive_list, prs.remove(sel), clamp_selection(sel, n - 1))
            &&& a1.pr_list.spec_prs().len() == a0.pr_list.spec_prs().len() + 1
            &&& a1.pr_list.spec_prs().skip(1) == a0.pr_list.spec_prs()
            &&& manually_followed(a1.pr_list.spec_prs()[0], prs[sel])
            &&& a1.pr_list.spec_selected() == a0.pr_list.spec_selected()
            &&& a1 == (App { archive_list: a1.archive_list, pr_list: a1.pr_list, ..a0 })
            &&& eff == seq![Effect::SaveArchive, Effect::SaveState]
        } else {
            eff.len() == 0 && a1 == a0
        },
        KeyCode::Left | KeyCode::Char('h') | KeyCode::Esc => eff.len() == 0
            && a1 == (App { mode: AppMode::Normal, ..a0 }),
        KeyCode::Right | KeyCode::Char('l') => eff.len() == 0 && a1 == (App { mode: AppMode::Settings, ..a0 }),
        KeyCode::Char('q') => eff.len() == 0 && a1 == (App { should_quit: true, ..a0 }),
        _ => eff.len() == 0 && a1 == a0,
    }
}

/// The first position of `theme` among the theme slugs, or 0.
pub open spec fn theme_position(theme: Seq<char>) -> int {
    let themes = theme_slug_list();
    if exists|i: int| 0 <= i < themes.len() && themes[i] == theme {
        choose|i: int| 0 <= i < themes.len() && themes[i] == theme && forall|j: int| 0 <= j < i ==> themes[j] != theme
    } else {
        0
    }
}

/// The columns after toggling `col`: its first occurrence removed, or it
/// appended when absent.
pub open spec fn toggled_columns(cols: Seq<Column>, col: Column) -> Seq<Column> {
    if cols.contains(col) {
        let i = choose|i: int| 0 <= i < cols.len() && cols[i] == col && forall|j: int| 0 <= j < i ==> cols[j] != col;
        cols.remove(i)
    } else {
        cols.push(col)
    }
}

/// What activating a settings row does (see `spec_setting_action`).
pub open spec fn settings_action_step(a0: App, a1: App, eff: Seq<Effect>) -> bool {
    let c0 = a0.config;
    &&& eff.len() == 0
    &&& match spec_setting_action(c0.queries@.len() as int, a0.settings_selected_index as int) {
        SettingAction::NoAction => a1 == a0,
        SettingAction::ToggleNerdFonts => a1 == (App {
            config: AppConfig { use_nerd_fonts: !c0.use_nerd_fonts, ..c0 },
            ..a0
        }),
        SettingAction::ToggleStatusBar => a1 == (App {
            config: AppConfig { show_status_bar: !c0.show_status_bar, ..c0 },
            ..a0
        }),
        SettingAction::CycleTheme => a1 == (App {
            theme_picker_original: Some(c0.theme),
            theme_picker_index: theme_position(c0.theme@) as usize,
            mode: AppMode::ThemePicker,
            ..a0
        }),
        SettingAction::ToggleColumn(col) => a1.config.visible_columns@ == toggled_columns(c0.visible_columns@, col)
            && a1 == (App { config: AppConfig { visible_columns: a1.config.visible_columns, ..c0 }, ..a0 }),
        SettingAction::ToggleQuery(q) => {
            &&& a1.config.queries@.len() == c0.queries@.len()
            &&& forall|i: int| 0 <= i < c0.queries@.len() && i != q ==> #[trigger] a1.config.queries@[i]
                == c0.queries@[i]
            &&& a1.config.queries@[q as int] == (QueryConfig {
                enabled: !c0.queries@[q as int].enabled,
                ..c0.queries@[q as int]
            })
            &&& a1 == (App { config: AppConfig { queries: a1.config.queries, ..c0 }, ..a0 })
        },
        SettingAction::AddQuery => {
            &&& a1.query_name_buffer@ == Seq::<char>::empty()
            &&& a1.query_search_buffer@ == Seq::<char>::empty()
            &&& a1 == (App {
                query_name_buffer: a1.query_name_buffer,
                query_search_buffer: a1.query_search_buffer,
                query_test_results: None,
                query_test_error: None,
                is_testing_query: false,
                mode: AppMode::AddQueryName,
                ..a0
            })
        },
    }
}

/// A key on the settings screen: `j`/Down and `k`/Up move between rows
/// (through the row after the queries), Enter or Space activates the row,
/// `e` edits and `d` deletes the query on a query row, `D` opens the log of
/// GitHub calls, Left or `h` save and show the archive, Right, `l` or Esc
/// save and show the pull requests.
pub open spec fn settings_step(a0: App, a1: App, key: Key, eff: Seq<Effect>) -> bool {
    let idx = a0.settings_selected_index;
    let nq = a0.config.queries@.len();
    let action = spec_setting_action(nq as int, idx as int);
    match key.code {
        KeyCode::Char('j') | KeyCode::Down => eff.len() == 0 && if idx < QUERIES_START + nq && idx < usize::MAX {
            a1 == (App { settings_selected_index: (idx + 1) as usize, ..a0 })
        } else {
            a1 == a0
        },
        KeyCode::Char('k') | KeyCode::Up => eff.len() == 0 && if idx > 0 {
            a1 == (App { settings_selected_index: (idx - 1) as usize, ..a0 })
        } else {
            a1 == a0
        },
        KeyCode::Enter | KeyCode::Char(' ') => settings_action_step(a0, a1, eff),
        KeyCode::Char('e') => eff.len() == 0 && match action {
            SettingAction::ToggleQuery(q) => {
                &&& a1.query_name_buffer@ == a0.config.queries@[q as int].name@
                &&& a1.query_search_buffer@ == a0.config.queries@[q as int].search@
                &&& a1 == (App {
                    editing_query_index: Some(q),
                    query_name_buffer: a1.query_name_buffer,
                    query_search_buffer: a1.query_search_buffer,
                    query_test_results: None,
                    query_test_error: None,
                    is_testing_query: false,
                    mode: AppMode::AddQueryName,
                    ..a0
                })
            },
            _ => a1 == a0,
        },
        KeyCode::Char('d') => eff.len() == 0 && match action {
            SettingAction::ToggleQuery(q) => a1 == (App {
                deleting_query_index: Some(q),
                mode: AppMode::DeleteQueryConfirm,
                ..a0
            }),
            _ => a1 == a0,
        },
        KeyCode::Char('D') => eff.len() == 0
            && a1 == (App { diagnostic_selected_index: 0, mode: AppMode::Diagnostic, ..a0 }),
        KeyCode::Left | KeyCode::Char('h') => eff.len() == 2 && eff[0] == Effect::SaveConfig
            && to_archive(a0, a1, eff.skip(1)),
        KeyCode::Right | KeyCode::Char('l') | KeyCode::Esc => eff == seq![Effect::SaveConfig]
            && a1 == (App { mode: AppMode::Normal, ..a0 }),
        _ => eff.len() == 0 && a1 == a0,
    }
}

impl App {
    /// Shows the archive after loading `archived` into it: the first entry
    /// is selected.
    pub fn show_archive(&mut self, archived: Vec<PullRequest>)
        ensures
            list_is(final(self).archive_list, archived@, index_set(archived@.len() as int, 0)),
            *final(self) == (App { archive_list: final(self).archive_list, ..*old(self) }),
    {
        self.archive_list.set_prs(archived);
        self.archive_list.set_selected_index(0);
    }

    fn switch_to_archive(&mut self) -> (eff: Vec<Effect>)
        ensures
            to_archive(*old(self), *final(self), eff@),
    {
        self.archive_list.set_selected_index(0);
        self.mode = AppMode::Archive;
        let mut eff: Vec<Effect> = Vec::new();
        eff.push(Effect::ReloadArchive);
        assert(eff@ =~= seq![Effect::ReloadArchive]);
        eff
    }

    pub(crate) fn archive_key(&mut self, key: Key) -> (eff: Vec<Effect>)
        ensures
            archive_step(*old(self), *final(self), key, eff@),
    {
        let mut eff: Vec<Effect> = Vec::new();
        let n = self.archive_list.items().len();
        let sel = self.archive_list.selected_index();
        match key.code {
            KeyCode::Char('j') | KeyCode::Down => {
                if sel < (if n > 0 { n - 1 } else { 0 }) {
                    self.archive_list.select_next();
                }
            },
            KeyCode::Char('k') | KeyCode::Up => {
                if sel > 0 {
                    self.archive_list.select_prev();
                }
            },
            KeyCode::Char('g') => self.archive_list.set_selected_index(0),
            KeyCode::Char('G') => self.archive_list.set_selected_index(if n > 0 { n - 1 } else { 0 }),
            KeyCode::Char('d') => {
                if sel < n {
                    let _ = self.archive_list.remove_selected();
                    eff.push(Effect::SaveArchive);
                    assert(eff@ =~= seq![Effect::SaveArchive]);
                }
            },
            KeyCode::Char('f') => {
                if sel < n {
                    match self.archive_list.remove_selected() {
                        Some(pr) => {
                            let mut pr = pr;
                            let ghost p0 = pr;
                            if !list_has(&pr.matched_queries, "manual") {
                                let manual = String::from_str("manual");
                                proof { reveal_strlit("manual"); }
                                pr.matched_queries.push(manual);
                                assert(pr.matched_queries@.drop_last() =~= p0.matched_queries@);
                            }
                            proof { reveal_strlit("manual"); }
                            self.pr_list.insert_at_front(pr);
                            eff.push(Effect::SaveArchive);
                            eff.push(Effect::SaveState);
                            assert(eff@ =~= seq![Effect::SaveArchive, Effect::SaveState]);
                            assert(self.pr_list.spec_prs().skip(1) =~= old(self).pr_list.spec_prs());
                        },
                        None => {},
                    }
                }
            },
            KeyCode::Left | KeyCode::Char('h') | KeyCode::Esc => {
                self.mode = AppMode::Normal;
            },
            KeyCode::Right | KeyCode::Char('l') => {
                self.mode = AppMode::Settings;
            },
            KeyCode::Char('q') => {
                self.should_quit = true;
            },
            _ => {},
        }
        eff
    }

    /// The first position of `theme` among the theme slugs, or 0.
    fn find_theme(theme: &str) -> (r: usize)
        ensures
            r == theme_position(theme@),
            r < 16,
    {
        let themes = theme_slugs();
        proof {
            assert(theme_slug_list().len() == 16);
            assert(string_views(themes@).len() == themes@.len());
        }
        let mut i: usize = 0;
        while i < themes.len()
            invariant
                i <= themes@.len(),
                themes@.len() == 16,
                string_views(themes@) == theme_slug_list(),
                forall|j: int| 0 <= j < i ==> #[trigger] theme_slug_list()[j] != theme@,
            decreases themes.len() - i,
        {
            proof { assert(string_views(themes@)[i as int] == themes@[i as int]@); }
            if str_eq(themes[i].as_str(), theme) {
                proof {
                    let w = choose|k: int| 0 <= k < 16 && theme_slug_list()[k] == theme@
                        && forall|j: int| 0 <= j < k ==> theme_slug_list()[j] != theme@;
                    if w < i {
                    } else if w > i {
                        assert(theme_slug_list()[i as int] == theme@);
                    }
                }
                return i;
            }
            i = i + 1;
        }
        0
    }

    /// The columns with `col` toggled (see `toggled_columns`).
    fn toggle_column(cols: &mut Vec<Column>, col: Column)
        ensures
            final(cols)@ == toggled_columns(old(cols)@, col),
    {
        let mut i: usize = 0;
        while i < cols.len()
            invariant
                i <= cols@.len(),
                cols@ == old(cols)@,
                forall|j: int| 0 <= j < i ==> cols@[j] != col,
            decreases cols.len() - i,
        {
            if cols[i] == col {
                proof {
                    let w = choose|k: int| 0 <= k < cols@.len() && cols@[k] == col
                        && forall|j: int| 0 <= j < k ==> cols@[j] != col;
                    if w < i {
                    } else if w > i {
                        assert(cols@[i as int] != col);
                    }
                }
                cols.remove(i);
                return;
            }
            i = i + 1;
        }
        proof {
            if cols@.contains(col) {
                let k = choose|k: int| 0 <= k < cols@.len() && cols@[k] == col;
                assert(cols@[k] != col);
            }
        }
        cols.push(col);
    }

    fn settings_action(&mut self) -> (eff: Vec<Effect>)
        ensures
            settings_action_step(*old(self), *final(self), eff@),
    {
        match get_setting_action(&self.config, self.settings_selected_index) {
            SettingAction::NoAction => {},
            SettingAction::ToggleNerdFonts => {
                self.config.use_nerd_fonts = !self.config.use_nerd_fonts;
            },
            SettingAction::ToggleStatusBar => {
                self.config.show_status_bar = !self.config.show_status_bar;
            },
            SettingAction::CycleTheme => {
                let pos = App::find_theme(self.config.theme.as_str());
                self.theme_picker_original = Some(self.config.theme.clone());
                self.theme_picker_index = pos;
                self.mode = AppMode::ThemePicker;
            },
            SettingAction::ToggleColumn(col) => {
                App::toggle_column(&mut self.config.visible_columns, col);
            },
            SettingAction::ToggleQuery(q) => {
                if q < self.config.queries.len() {
                    let flipped = QueryConfig {
                        name: self.config.queries[q].name.clone(),
                        search: self.config.queries[q].search.clone(),
                        interval: self.config.queries[q].interval.clone(),
                        enabled: !self.config.queries[q].enabled,
                    };
                    self.config.queries.set(q, flipped);
                }
            },
            SettingAction::AddQuery => {
                self.query_name_buffer = String::new();
                self.query_search_buffer = String::new();
                self.query_test_results = None;
                self.query_test_error = None;
                self.is_testing_query = false;
                self.mode = AppMode::AddQueryName;
            },
        }
        Vec::new()
    }

    pub(crate) fn settings_key(&mut self, key: Key) -> (eff: Vec<Effect>)
        ensures
            settings_step(*old(self), *final(self), key, eff@),
    {
        let idx = self.settings_selected_index;
        let nq = self.config.queries.len();
        match key.code {
            KeyCode::Char('j') | KeyCode::Down => {
                if (idx < QUERIES_START || idx - QUERIES_START < nq) && idx < usize::MAX {
                    self.settings_selected_index = idx + 1;
                }
                Vec::new()
            },
            KeyCode::Char('k') | KeyCode::Up => {
                if idx > 0 {
                    self.settings_selected_index = idx - 1;
                }
                Vec::new()
            },
            KeyCode::Enter | KeyCode::Char(' ') => self.settings_action(),
            KeyCode::Char('e') => {
                match get_setting_action(&self.config, idx) {
                    SettingAction::ToggleQuery(q) => {
                        self.editing_query_index = Some(q);
                        self.query_name_buffer = self.config.queries[q].name.clone();
                        self.query_search_buffer = self.config.queries[q].search.clone();
                        self.query_test_results = None;
                        self.query_test_error = None;
                        self.is_testing_query = false;
                        self.mode = AppMode::AddQueryName;
                    },
                    _ => {},
                }
                Vec::new()
            },
            KeyCode::Char('d') => {
                match get_setting_action(&self.config, idx) {
                    SettingAction::ToggleQuery(q) => {
                        self.deleting_query_index = Some(q);
                        self.mode = AppMode::DeleteQueryConfirm;
                    },
                    _ => {},
                }
                Vec::new()
            },
            KeyCode::Char('D') => {
                self.diagnostic_selected_index = 0;
                self.mode = AppMode::Diagnostic;
                Vec::new()
            },
            KeyCode::Left | KeyCode::Char('h') => {
                let mut eff: Vec<Effect> = Vec::new();
                eff.push(Effect::SaveConfig);
                let mut more = self.switch_to_archive();
                eff.append(&mut more);
                assert(eff@.skip(1) =~= seq![Effect::ReloadArchive]);
                eff
            },
            KeyCode::Right | KeyCode::Char('l') | KeyCode::Esc => {
                self.mode = AppMode::Normal;
                let mut eff: Vec<Effect> = Vec::new();
                eff.push(Effect::SaveConfig);
                assert(eff@ =~= seq![Effect::SaveConfig]);
                eff
            },
            _ => Vec::new(),
        }
    }
}

/// `r` is `p` marked seen at `now`: its seen markers take the current
/// update time and counts, and its attention state is marked seen.
pub open spec fn seen_marked(r: PullRequest, p: PullRequest, now: Timestamp) -> bool {
    &&& same_polled(r, p)
    &&& r.last_seen_at == Some(p.updated_at)
    &&& r.last_seen_unresolved_count == p.unresolved_count
    &&& r.last_seen_total_resolvable_count == p.total_resolvable_count
    &&& r.last_seen_conversational_count == p.conversational_count
    &&& r.attention_state@ == (AttentionStateView {
        active: Set::empty(),
        last_seen_at: Some(now),
        last_comment_at: p.attention_state@.last_comment_at,
    })
}

/// `r` is a copy of `src` with the item at `i` (or, when `i` is `None`,
/// every item) marked seen at `now`.
pub open spec fn marked_copy(r: Seq<PullRequest>, src: Seq<PullRequest>, i: Option<int>, now: Timestamp) -> bool {
    &&& r.len() == src.len()
    &&& forall|j: int| 0 <= j < src.len() ==> if i is None || i == Some(j) {
        seen_marked(#[trigger] r[j], src[j], now)
    } else {
        r[j].spec_same(src[j])
    }
}

/// The next sort mode: updated, created, priority, repository, and round.
pub open spec fn next_sort(s: SortMode) -> SortMode {
    match s {
        SortMode::Updated => SortMode::Created,
        SortMode::Created => SortMode::Priority,
        SortMode::Priority => SortMode::Repo,
        SortMode::Repo => SortMode::Updated,
    }
}

/// The next grouping: none, repository, author, status, mine first, and round.
pub open spec fn next_group(g: GroupMode) -> GroupMode {
    match g {
        GroupMode::Ungrouped => GroupMode::Repo,
        GroupMode::Repo => GroupMode::Author,
        GroupMode::Author => GroupMode::Status,
        GroupMode::Status => GroupMode::MyVsOther,
        GroupMode::MyVsOther => GroupMode::Ungrouped,
    }
}

/// The selected pull request is marked seen at `now` in a copy of the list
/// that replaces it, and the list is saved.
pub open spec fn mark_selected_seen(a0: App, a1: App, now: Timestamp, eff: Seq<Effect>) -> bool {
    let prs = a0.pr_list.spec_prs();
    let sel = a0.pr_list.spec_selected();
    &&& exists|r: Seq<PullRequest>| marked_copy(r, prs, Some(sel), now) && #[trigger] replaced(a0.pr_list, r, a1.pr_list)
    &&& a1 == (App { pr_list: a1.pr_list, ..a0 })
    &&& eff == seq![Effect::SaveState]
}

/// A key on the pull request list: `q` quits; `?`, `/` and `f` open help,
/// search and follow; Control-`l` opens the log; Left/`h` and Right/`l`
/// switch to the settings and the archive; `s` and Control-`g` cycle the
/// sort and grouping modes and sort; Tab moves the focus between list and
/// details; `o` opens the selected pull request in the browser (marking it
/// seen first when so configured) and `y` copies its URL; `j`/Down and
/// `k`/Up scroll the details or move the selection; `g` and `G` select the
/// first and last; `m` marks the selected, and `M` every, pull request
/// seen; `u` unfollows the selected one into the archive.
pub open spec fn normal_step(a0: App, a1: App, key: Key, now: Timestamp, eff: Seq<Effect>) -> bool {
    let l = a0.pr_list;
    let prs = l.spec_prs();
    let n = prs.len() as int;
    let sel = l.spec_selected();
    let user = a0.config.current_user@;
    match key.code {
        KeyCode::Char('q') => eff.len() == 0 && a1 == (App { should_quit: true, ..a0 }),
        KeyCode::Char('?') => eff.len() == 0 && a1 == (App { mode: AppMode::Help, ..a0 }),
        KeyCode::Char('/') => eff.len() == 0 && a1 == (App { mode: AppMode::Search, ..a0 }),
        KeyCode::Char('f') => eff.len() == 0 && a1 == (App { mode: AppMode::Follow, ..a0 }),
        KeyCode::Char('l') => if key.ctrl {
            eff.len() == 0 && a1 == (App { diagnostic_selected_index: 0, mode: AppMode::Diagnostic, ..a0 })
        } else {
            to_archive(a0, a1, eff)
        },
        KeyCode::Left | KeyCode::Char('h') => eff.len() == 0 && a1 == (App { mode: AppMode::Settings, ..a0 }),
        KeyCode::Right => to_archive(a0, a1, eff),
        KeyCode::Esc => eff.len() == 0 && a1 == (App { mode: AppMode::Normal, ..a0 }),
        KeyCode::Char('s') => {
            &&& eff.len() == 0
            &&& sort_rel(l, a1.pr_list, a0.config.group_by, next_sort(a0.sort_mode), user)
            &&& a1 == (App { pr_list: a1.pr_list, sort_mode: next_sort(a0.sort_mode), ..a0 })
        },
        KeyCode::Tab => eff.len() == 0
            && a1 == (App { detail_focused: !a0.detail_focused, detail_scroll: 0, ..a0 }),
        KeyCode::Char('o') => if sel < n {
            let url = prs[sel].url@;
            if a0.config.attention.open_in_browser_marks_seen {
                &&& mark_selected_seen(a0, a1, now, eff.take(1))
                &&& eff.len() == 2
                &&& eff[1] matches Effect::OpenInBrowser(u) && u@ == url
            } else {
                &&& a1 == a0
                &&& eff.len() == 1
                &&& eff[0] matches Effect::OpenInBrowser(u) && u@ == url
            }
        } else {
            eff.len() == 0 && a1 == a0
        },
        KeyCode::Char('y') => a1 == a0 && if sel < n {
            eff.len() == 1 && (eff[0] matches Effect::CopyToClipboard(u) && u@ == prs[sel].url@)
        } else {
            eff.len() == 0
        },
        KeyCode::Char('j') | KeyCode::Down => eff.len() == 0 && if a0.detail_focused {
            a1 == (App { detail_scroll: if a0.detail_scroll < u16::MAX { (a0.detail_scroll + 1) as u16 } else { u16::MAX }, ..a0 })
        } else if sel < less_one(n) {
            list_is(a1.pr_list, prs, sel + 1) && a1 == (App { pr_list: a1.pr_list, detail_scroll: 0, ..a0 })
        } else {
            a1 == a0
        },
        KeyCode::Char('k') | KeyCode::Up => eff.len() == 0 && if a0.detail_focused {
            a1 == (App { detail_scroll: if a0.detail_scroll > 0 { (a0.detail_scroll - 1) as u16 } else { 0 }, ..a0 })
        } else if sel > 0 {
            list_is(a1.pr_list, prs, sel - 1) && a1 == (App { pr_list: a1.pr_list, detail_scroll: 0, ..a0 })
        } else {
            a1 == a0
        },
        KeyCode::Char('g') => eff.len() == 0 && if key.ctrl {
            let g = next_group(a0.config.group_by);
            &&& sort_rel(l, a1.pr_list, g, a0.sort_mode, user)
            &&& a1 == (App { pr_list: a1.pr_list, config: AppConfig { group_by: g, ..a0.config }, ..a0 })
        } else {
            list_is(a1.pr_list, prs, index_set(n, 0)) && a1 == (App { pr_list: a1.pr_list, ..a0 })
        },
        KeyCode::Char('G') => eff.len() == 0 && list_is(a1.pr_list, prs, index_set(n, less_one(n)))
            && a1 == (App { pr_list: a1.pr_list, ..a0 }),
        KeyCode::Char('m') => if sel < n {
            mark_selected_seen(a0, a1, now, eff)
        } else {
            eff.len() == 0 && a1 == a0
        },
        KeyCode::Char('M') => {
            &&& exists|r: Seq<PullRequest>| marked_copy(r, prs, None, now) && #[trigger] replaced(l, r, a1.pr_list)
            &&& a1 == (App { pr_list: a1.pr_list, ..a0 })
            &&& eff == seq![Effect::SaveState]
        },
        KeyCode::Char('u') => if sel < n {
            let p = prs[sel];
            let arch = a1.archive_list.spec_prs();
            &&& list_is(a1.pr_list, prs.remove(sel), clamp_selection(sel, n - 1))
            &&& arch.len() == a0.archive_list.spec_prs().len() + 1
            &&& arch.skip(1) == a0.archive_list.spec_prs()
            &&& arch[0] == (PullRequest { attention_state: arch[0].attention_state, ..p })
            &&& arch[0].attention_state@ == (AttentionStateView { active: Set::empty(), last_seen_at: Some(now), ..p.attention_state@ })
            &&& a1.archive_list.spec_selected() == a0.archive_list.spec_selected()
            &&& a1 == (App { pr_list: a1.pr_list, archive_list: a1.archive_list, ..a0 })
            &&& eff.len() == 2
            &&& eff[0] matches Effect::ArchivePr(q) && q.spec_same(arch[0])
            &&& eff[1] is SaveState
        } else {
            eff.len() == 0 && a1 == a0
        },
        _ => eff.len() == 0 && a1 == a0,
    }
}

/// A copy of the pull request marked seen at `now`.
fn mark_pr_seen(p: &PullRequest, now: Timestamp) -> (r: PullRequest)
    ensures
        seen_marked(r, *p, now),
{
    let mut r = p.duplicate();
    r.last_seen_at = Some(p.updated_at.clone());
    r.last_seen_unresolved_count = p.unresolved_count;
    r.last_seen_total_resolvable_count = p.total_resolvable_count;
    r.last_seen_conversational_count = p.conversational_count;
    apply_mark_seen(&mut r.attention_state, now);
    r
}

impl App {
    /// Marks the selected pull request seen (see `mark_selected_seen`).
    fn mark_selected(&mut self, now: Timestamp) -> (eff: Vec<Effect>)
        requires
            old(self).pr_list.spec_selected() < old(self).pr_list.spec_prs().len(),
        ensures
            mark_selected_seen(*old(self), *final(self), now, eff@),
    {
        let items = self.pr_list.items();
        let sel = self.pr_list.selected_index();
        let mut prs = clone_prs(items);
        let marked = mark_pr_seen(&items[sel], now);
        prs.set(sel, marked);
        let ghost r = prs@;
        self.pr_list.set_prs(prs);
        let mut eff: Vec<Effect> = Vec::new();
        eff.push(Effect::SaveState);
        assert(eff@ =~= seq![Effect::SaveState]);
        assert(marked_copy(r, old(self).pr_list.spec_prs(), Some(sel as int), now));
        assert(replaced(old(self).pr_list, r, self.pr_list));
        eff
    }

    /// Marks every pull request seen and saves the list.
    fn mark_all(&mut self, now: Timestamp) -> (eff: Vec<Effect>)
        ensures
            exists|r: Seq<PullRequest>| marked_copy(r, old(self).pr_list.spec_prs(), None, now)
                && #[trigger] replaced(old(self).pr_list, r, final(self).pr_list),
            *final(self) == (App { pr_list: final(self).pr_list, ..*old(self) }),
            eff@ == seq![Effect::SaveState],
    {
        let items = self.pr_list.items();
        let mut prs: Vec<PullRequest> = Vec::new();
        let mut i: usize = 0;
        while i < items.len()
            invariant
                i <= items@.len(),
                prs@.len() == i,
                forall|j: int| 0 <= j < i ==> seen_marked(#[trigger] prs@[j], items@[j], now),
            decreases items.len() - i,
        {
            prs.push(mark_pr_seen(&items[i], now));
            i = i + 1;
        }
        let ghost r = prs@;
        self.pr_list.set_prs(prs);
        let mut eff: Vec<Effect> = Vec::new();
        eff.push(Effect::SaveState);
        assert(eff@ =~= seq![Effect::SaveState]);
        assert(marked_copy(r, old(self).pr_list.spec_prs(), None, now));
        assert(replaced(old(self).pr_list, r, self.pr_list));
        eff
    }

    fn normal_nav_key(&mut self, key: Key, now: Timestamp) -> (eff: Vec<Effect>)
        requires
            key.code == KeyCode::Tab || key.code == KeyCode::Down || key.code == KeyCode::Up || key.code == KeyCode::Char('j') || key.code == KeyCode::Char('k') || (key.code == KeyCode::Char('g') && !key.ctrl) || key.code == KeyCode::Char('G'),
        ensures
            normal_step(*old(self), *final(self), key, now, eff@),
    {
        let n = self.pr_list.items().len();
        let sel = self.pr_list.selected_index();
        let mut eff: Vec<Effect> = Vec::new();
        match key.code {
            KeyCode::Tab => {
                self.detail_focused = !self.detail_focused;
                self.detail_scroll = 0;
            },
            KeyCode::Char('j') | KeyCode::Down => {
                if self.detail_focused {
                    if self.detail_scroll < u16::MAX {
                        self.detail_scroll = self.detail_scroll + 1;
                    }
                } else if sel < (if n > 0 { n - 1 } else { 0 }) {
                    self.pr_list.select_next();
                    self.detail_scroll = 0;
                }
            },
            KeyCode::Char('k') | KeyCode::Up => {
                if self.detail_focused {
                    if self.detail_scroll > 0 {
                        self.detail_scroll = self.detail_scroll - 1;
                    }
                } else if sel > 0 {
                    self.pr_list.select_prev();
                    self.detail_scroll = 0;
                }
            },
            KeyCode::Char('g') => {
                self.pr_list.set_selected_index(0);
            },
            KeyCode::Char('G') => {
                self.pr_list.set_selected_index(if n > 0 { n - 1 } else { 0 });
            },
            _ => {},
        }
        eff
    }

    fn normal_list_key(&mut self, key: Key, now: Timestamp) -> (eff: Vec<Effect>)
        requires
            key.code == KeyCode::Char('o') || key.code == KeyCode::Char('y') || key.code == KeyCode::Char('m') || key.code == KeyCode::Char('M') || key.code == KeyCode::Char('u'),
        ensures
            normal_step(*old(self), *final(self), key, now, eff@),
    {
        let n = self.pr_list.items().len();
        let sel = self.pr_list.selected_index();
        let mut eff: Vec<Effect> = Vec::new();
        match key.code {
            KeyCode::Char('o') => {
                if sel < n {
                    let url = self.pr_list.items()[sel].url.clone();
                    if self.config.attention.open_in_browser_marks_seen {
                        eff = self.mark_selected(now);
                    }
                    let ghost before = eff@;
                    eff.push(Effect::OpenInBrowser(url));
                    assert(eff@.take(before.len() as int) =~= before);
                }
            },
            KeyCode::Char('y') => {
                if sel < n {
                    eff.push(Effect::CopyToClipboard(self.pr_list.items()[sel].url.clone()));
                }
            },
            KeyCode::Char('m') => {
                if sel < n {
                    eff = self.mark_selected(now);
                }
            },
            KeyCode::Char('M') => {
                eff = self.mark_all(now);
            },
            KeyCode::Char('u') => {
                if sel < n {
                    match self.pr_list.remove_selected() {
                        Some(pr) => {
                            let mut pr = pr;
                            apply_archive(&mut pr.attention_state, now);
                            let copy = pr.duplicate();
                            self.archive_list.insert_at_front(pr);
                            eff.push(Effect::ArchivePr(copy));
                            eff.push(Effect::SaveState);
                            assert(self.archive_list.spec_prs().skip(1) =~= old(self).archive_list.spec_prs());
                        },
                        None => {},
                    }
                }
            },
            _ => {},
        }
        eff
    }

    fn normal_mode_key(&mut self, key: Key, now: Timestamp) -> (eff: Vec<Effect>)
        requires
            !(key.code == KeyCode::Tab || key.code == KeyCode::Down || key.code == KeyCode::Up || key.code == KeyCode::Char('j') || key.code == KeyCode::Char('k') || (key.code == KeyCode::Char('g') && !key.ctrl) || key.code == KeyCode::Char('G')) && !(key.code == KeyCode::Char('o') || key.code == KeyCode::Char('y') || key.code == KeyCode::Char('m') || key.code == KeyCode::Char('M') || key.code == KeyCode::Char('u')),
        ensures
            normal_step(*old(self), *final(self), key, now, eff@),
    {
        let n = self.pr_list.items().len();
        let sel = self.pr_list.selected_index();
        let mut eff: Vec<Effect> = Vec::new();
        match key.code {
            KeyCode::Char('q') => {
                self.should_quit = true;
            },
            KeyCode::Char('?') => {
                self.mode = AppMode::Help;
            },
            KeyCode::Char('/') => {
                self.mode = AppMode::Search;
            },
            KeyCode::Char('f') => {
                self.mode = AppMode::Follow;
            },
            KeyCode::Char('l') => {
                if key.ctrl {
                    self.diagnostic_selected_index = 0;
                    self.mode = AppMode::Diagnostic;
                } else {
                    eff = self.switch_to_archive();
                }
            },
            KeyCode::Left | KeyCode::Char('h') => {
                self.mode = AppMode::Settings;
            },
            KeyCode::Right => {
                eff = self.switch_to_archive();
            },
            KeyCode::Esc => {
                self.mode = AppMode::Normal;
            },
            KeyCode::Char('s') => {
                self.sort_mode = match self.sort_mode {
                    SortMode::Updated => SortMode::Created,
                    SortMode::Created => SortMode::Priority,
                    SortMode::Priority => SortMode::Repo,
                    SortMode::Repo => SortMode::Updated,
                };
                self.sort_prs();
            },
            KeyCode::Char('g') => {
                self.config.group_by = match self.config.group_by {
                    GroupMode::Ungrouped => GroupMode::Repo,
                    GroupMode::Repo => GroupMode::Author,
                    GroupMode::Author => GroupMode::Status,
                    GroupMode::Status => GroupMode::MyVsOther,
                    GroupMode::MyVsOther => GroupMode::Ungrouped,
                };
                self.sort_prs();
            },
            _ => {},
        }
        eff
    }

    pub(crate) fn normal_key(&mut self, key: Key, now: Timestamp) -> (eff: Vec<Effect>)
        ensures
            normal_step(*old(self), *final(self), key, now, eff@),
    {
        if key.code == KeyCode::Tab || key.code == KeyCode::Down || key.code == KeyCode::Up || key.code == KeyCode::Char('j') || key.code == KeyCode::Char('k') || (key.code == KeyCode::Char('g') && !key.ctrl) || key.code == KeyCode::Char('G') {
            self.normal_nav_key(key, now)
        } else if key.code == KeyCode::Char('o') || key.code == KeyCode::Char('y') || key.code == KeyCode::Char('m') || key.code == KeyCode::Char('M') || key.code == KeyCode::Char('u') {
            self.normal_list_key(key, now)
        } else {
            self.normal_mode_key(key, now)
        }
    }
}

} // verus!
