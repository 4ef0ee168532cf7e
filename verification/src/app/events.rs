//! The events of the application's loop and what each does.
use vstd::prelude::*;
use crate::app::{App, AppMode, Effect, spec_details_fetch, is_fetch, replaced, sort_rel};
use crate::app::keys::{
    Key, search_step, follow_step, help_step, archive_step, settings_step, theme_picker_step, diagnostic_step,
    log_detail_step, normal_step, add_query_name_step, add_query_search_step, confirm_query_step,
    delete_query_step, edit_max_age_step, less_one, list_is,
};
use crate::app::merge::{detail_merged, poll_merged, kept, attributed, lemma_kept_copies, retain_attributed};
use crate::domain::pr::{clone_prs, copies_of};
use crate::config::AppConfig;
use crate::domain::attention::{evaluate, spec_evaluate, quiet_period_in_range};
use crate::domain::lifecycle::timeout_in_range;
use crate::domain::pr::{CheckRun, PullRequest, TimelineEvent};
use crate::domain::time::{Timestamp, spec_span_nanos, span_nanos};
use crate::util::text::{str_eq, push_str, decimal, decimal_string};

verus! {

/// Terminal input the application reacts to.
#[derive(Debug, Clone, Copy, PartialEq, Eq, Structural)]
pub enum InputEvent {
    Key(Key),
    ScrollUp,
    ScrollDown,
    Other,
}

/// An event of the application's loop.
#[derive(Debug)]
pub enum AppEvent {
    /// The periodic tick.
    Tick,
    /// Terminal input.
    Input(InputEvent),
    /// A poll (or, under the query name "detail", a detail fetch) returned
    /// these pull requests.
    PrsUpdated { query_name: String, prs: Vec<PullRequest> },
    /// The CI checks of a pull request were fetched.
    CiStatusLoaded { repo: String, pr_number: u32, checks: Vec<CheckRun> },
    /// The timeline of a pull request was fetched.
    TimelineLoaded { repo: String, pr_number: u32, events: Vec<TimelineEvent> },
    /// The settings file changed.
    ConfigReloaded(AppConfig),
    /// Another instance saved the active list.
    StateReloaded(Vec<PullRequest>),
    /// Something failed; the message is shown for a while.
    Error(String),
    /// A polling cycle started.
    PollCycleStarted,
    /// Every query was polled once: the pull requests that no query listed
    /// leave the active list.
    InitialSyncDone,
    /// The test of a new query finished.
    QueryTested(Result<Vec<PullRequest>, String>),
}

/// The event that ends following the pull request `number` of `repo`, for
/// the outcome of fetching it: the pull request, merged as the manual
/// list's; or the error, as "Failed to fetch PR `repo`#`number`: " and the
/// error's text.
pub open spec fn spec_follow_event(repo: Seq<char>, number: u32, fetched: Result<PullRequest, String>, ev: AppEvent)
    -> bool {
    match fetched {
        Ok(pr) => ev matches AppEvent::PrsUpdated { query_name, prs } && query_name@ == "manual"@
            && prs@ == seq![pr],
        Err(e) => ev matches AppEvent::Error(m)
            && m@ == "Failed to fetch PR "@ + repo + "#"@ + decimal(number as nat) + ": "@ + e@,
    }
}

/// The event for the outcome of a follow fetch (see `spec_follow_event`).
pub fn follow_event(repo: &str, number: u32, fetched: Result<PullRequest, String>) -> (ev: AppEvent)
    ensures
        spec_follow_event(repo@, number, fetched, ev),
{
    match fetched {
        Ok(pr) => {
            let ghost p = pr;
            let mut prs: Vec<PullRequest> = Vec::new();
            prs.push(pr);
            assert(prs@ =~= seq![p]);
            let query_name = String::from_str("manual");
            AppEvent::PrsUpdated { query_name, prs }
        },
        Err(e) => {
            let mut m = String::new();
            push_str(&mut m, "Failed to fetch PR ");
            push_str(&mut m, repo);
            push_str(&mut m, "#");
            let n = decimal_string(number as u128);
            push_str(&mut m, n.as_str());
            push_str(&mut m, ": ");
            push_str(&mut m, e.as_str());
            proof {
                reveal_strlit("Failed to fetch PR ");
                reveal_strlit("#");
                reveal_strlit(": ");
            }
            AppEvent::Error(m)
        },
    }
}

/// The mode's part of a key (see the `*_step` functions).
pub open spec fn mode_step(a0: App, a1: App, key: Key, now: Timestamp, calls: usize, eff: Seq<Effect>) -> bool {
    match a0.mode {
        AppMode::Search => search_step(a0, a1, key, eff),
        AppMode::Follow => follow_step(a0, a1, key, eff),
        AppMode::Help => help_step(a0, a1, key, eff),
        AppMode::Archive => archive_step(a0, a1, key, eff),
        AppMode::Settings => settings_step(a0, a1, key, eff),
        AppMode::ThemePicker => theme_picker_step(a0, a1, key, eff),
        AppMode::Diagnostic => diagnostic_step(a0, a1, key, calls, eff),
        AppMode::LogDetail => log_detail_step(a0, a1, key, eff),
        AppMode::Normal => normal_step(a0, a1, key, now, eff),
        AppMode::AddQueryName => add_query_name_step(a0, a1, key, eff),
        AppMode::AddQuerySearch => add_query_search_step(a0, a1, key, eff),
        AppMode::ConfirmQuery => confirm_query_step(a0, a1, key, eff),
        AppMode::DeleteQueryConfirm => delete_query_step(a0, a1, key, eff),
        AppMode::EditMaxAgeDays => edit_max_age_step(a0, a1, key, eff),
    }
}

/// After the mode's part, a change of the selected position fetches the
/// details of the newly selected pull request.
pub open spec fn with_fetch_on_move(a0: App, a1: App, eff: Seq<Effect>, inner: spec_fn(Seq<Effect>) -> bool) -> bool {
    if a1.pr_list.spec_selected() != a0.pr_list.spec_selected() && spec_details_fetch(a1.pr_list) is Some {
        eff.len() > 0 && inner(eff.drop_last()) && is_fetch(eff.last(), spec_details_fetch(a1.pr_list)->0)
    } else {
        inner(eff)
    }
}

/// What a key does (see `mode_step` and `with_fetch_on_move`); `calls` is
/// the number of entries in the log of GitHub calls.
pub open spec fn key_handled(a0: App, a1: App, key: Key, now: Timestamp, calls: usize, eff: Seq<Effect>) -> bool {
    with_fetch_on_move(a0, a1, eff, |e: Seq<Effect>| mode_step(a0, a1, key, now, calls, e))
}

/// Scrolling on the pull request list moves the selection by one.
pub open spec fn scroll_step(a0: App, a1: App, down: bool, eff: Seq<Effect>) -> bool {
    let prs = a0.pr_list.spec_prs();
    let sel = a0.pr_list.spec_selected();
    if a0.mode == AppMode::Normal && down && sel < less_one(prs.len() as int) {
        list_is(a1.pr_list, prs, sel + 1) && a1 == (App { pr_list: a1.pr_list, ..a0 })
    } else if a0.mode == AppMode::Normal && !down && sel > 0 {
        list_is(a1.pr_list, prs, sel - 1) && a1 == (App { pr_list: a1.pr_list, ..a0 })
    } else {
        a1 == a0 && eff.len() == 0
    }
}

/// What a piece of input does.
pub open spec fn input_handled(a0: App, a1: App, e: InputEvent, now: Timestamp, calls: usize, eff: Seq<Effect>) -> bool {
    match e {
        InputEvent::Key(k) => key_handled(a0, a1, k, now, calls, eff),
        InputEvent::ScrollDown => with_fetch_on_move(a0, a1, eff, |e: Seq<Effect>| scroll_step(a0, a1, true, e)),
        InputEvent::ScrollUp => with_fetch_on_move(a0, a1, eff, |e: Seq<Effect>| scroll_step(a0, a1, false, e)),
        InputEvent::Other => a1 == a0 && eff.len() == 0,
    }
}

/// The state `handle_key` may start from.
pub open spec fn keys_ready(a: App) -> bool {
    a.mode == AppMode::ThemePicker ==> a.theme_picker_index <= 16
}

/// The selected pull request is the one in `repo` with `number`.
pub open spec fn selected_is(l: crate::domain::pr_list::PRList, repo: Seq<char>, number: u32) -> bool {
    spec_details_fetch(l) == Some((repo, number))
}

/// `i` is the first position of a pull request in `repo` with `number`.
pub open spec fn first_at(prs: Seq<PullRequest>, repo: Seq<char>, number: u32, i: int) -> bool {
    &&& 0 <= i < prs.len()
    &&& prs[i].repo@ == repo && prs[i].number == number
    &&& forall|j: int| 0 <= j < i ==> !(#[trigger] prs[j].repo@ == repo && prs[j].number == number)
}

/// What a fetched timeline does: it is stored for its pull request (the
/// first listed in that repository with that number), whose attention is
/// re-evaluated against it (the list is saved by the writing instance), and
/// it is shown when that pull request is selected.
pub open spec fn timeline_step(a0: App, a1: App, repo: Seq<char>, number: u32, events: Seq<TimelineEvent>, now: Timestamp, eff: Seq<Effect>) -> bool {
    let prs = a0.pr_list.spec_prs();
    let shown = if selected_is(a0.pr_list, repo, number) { events } else { a0.current_timeline@ };
    &&& a1.current_timeline@ == shown
    &&& if exists|i: int| first_at(prs, repo, number, i) {
        let i = choose|i: int| first_at(prs, repo, number, i);
        let p = prs[i];
        &&& a1.pr_timelines@ == a0.pr_timelines@.insert(p.id@, events)
        &&& a1.pr_list.spec_selected() == a0.pr_list.spec_selected()
        &&& a1.pr_list.spec_prs().len() == prs.len()
        &&& forall|j: int| 0 <= j < prs.len() && j != i ==> #[trigger] a1.pr_list.spec_prs()[j] == prs[j]
        &&& a1.pr_list.spec_prs()[i] == (PullRequest { attention_state: a1.pr_list.spec_prs()[i].attention_state, ..p })
        &&& a1.pr_list.spec_prs()[i].attention_state@ == spec_evaluate(Some(p.attention_state@), Some(p), p, events,
            a0.config.current_user@, now, a0.config.attention.quiet_period_mins as i64 as int,
            a0.config.attention.disabled_reasons@)
        &&& a1 == (App {
            pr_list: a1.pr_list,
            pr_timelines: a1.pr_timelines,
            current_timeline: a1.current_timeline,
            ..a0
        })
        &&& eff == (if a0.is_writer { seq![Effect::SaveState] } else { Seq::empty() })
    } else {
        &&& a1 == (App { current_timeline: a1.current_timeline, ..a0 })
        &&& eff.len() == 0
    }
}

/// Ten seconds, in nanoseconds: how long an error message stays.
pub open spec fn error_shown_nanos() -> int {
    10_000_000_000
}

/// What an event does.
pub open spec fn event_handled(a0: App, a1: App, ev: AppEvent, now: Timestamp, calls: usize, eff: Seq<Effect>) -> bool {
    match ev {
        AppEvent::Tick => eff.len() == 0 && match a0.error_time {
            Some(t) => if spec_span_nanos(now, t) > error_shown_nanos() {
                a1 == (App { error_message: None, error_time: None, ..a0 })
            } else {
                a1 == a0
            },
            None => a1 == a0,
        },
        AppEvent::Input(e) => input_handled(a0, a1, e, now, calls, eff),
        AppEvent::PrsUpdated { query_name, prs } => {
            let detail = query_name@ == "detail"@;
            let n = if a0.is_writer { eff.len() - 1 } else { eff.len() as int };
            &&& (a0.is_writer ==> eff.len() > 0 && eff.last() is SaveState)
            &&& (detail ==> detail_merged(a0, a1, prs@, eff.take(n)))
            &&& (!detail ==> poll_merged(a0, a1, prs@, query_name@, now, eff.take(n)))
        },
        AppEvent::CiStatusLoaded { repo, pr_number, checks } => eff.len() == 0 && if selected_is(a0.pr_list, repo@, pr_number) {
            a1.current_checks@ == checks@ && a1 == (App { current_checks: a1.current_checks, ..a0 })
        } else {
            a1 == a0
        },
        AppEvent::TimelineLoaded { repo, pr_number, events } => timeline_step(a0, a1, repo@, pr_number, events@, now, eff),
        AppEvent::ConfigReloaded(c) => a1 == (App { config: c, ..a0 })
            && eff == (if a0.is_writer { seq![Effect::RestartPolling] } else { Seq::empty() }),
        AppEvent::StateReloaded(prs) => eff.len() == 0 && exists|l: crate::domain::pr_list::PRList|
            #[trigger] replaced(a0.pr_list, prs@, l)
            && sort_rel(l, a1.pr_list, a0.config.group_by, a0.sort_mode, a0.config.current_user@)
            && a1 == (App { pr_list: a1.pr_list, ..a0 }),
        AppEvent::Error(m) => eff.len() == 0 && a1 == (App { error_message: Some(m), error_time: Some(now), ..a0 }),
        AppEvent::PollCycleStarted => eff.len() == 0 && a1.notifier.spec_history() == a0.notifier.spec_history()
            && a1.notifier.spec_enabled() == a0.notifier.spec_enabled()
            && a1 == (App { notifier: a1.notifier, ..a0 }),
        AppEvent::InitialSyncDone => eff.len() == 0
            && (exists|k: Seq<PullRequest>| copies_of(k, kept(a0.pr_list.spec_prs(), attributed()))
                && #[trigger] replaced(a0.pr_list, k, a1.pr_list))
            && a1 == (App { is_first_sync: false, pr_list: a1.pr_list, ..a0 }),
        AppEvent::QueryTested(res) => eff.len() == 0 && match res {
            Ok(prs) => a1 == (App { is_testing_query: false, query_test_results: Some(prs), query_test_error: None, ..a0 }),
            Err(e) => a1 == (App { is_testing_query: false, query_test_results: None, query_test_error: Some(e), ..a0 }),
        },
    }
}

/// The state the event loop may hand an event to: attention and unfollow
/// durations that `chrono` can represent, and the theme picker in range.
pub open spec fn ready(a: App) -> bool {
    &&& quiet_period_in_range(a.config.attention.quiet_period_mins)
    &&& (a.is_writer ==> timeout_in_range(a.config.unfollow_timeout_mins))
    &&& keys_ready(a)
}

impl App {
    /// Handles a key (see `key_handled`).
    pub fn handle_key(&mut self, key: Key, now: Timestamp, calls: usize) -> (eff: Vec<Effect>)
        requires
            keys_ready(*old(self)),
        ensures
            key_handled(*old(self), *final(self), key, now, calls, eff@),
    {
        let old_index = self.pr_list.selected_index();
        let mut eff = match self.mode {
            AppMode::Search => self.search_key(key),
            AppMode::Follow => self.follow_key(key),
            AppMode::Help => self.help_key(key),
            AppMode::Archive => self.archive_key(key),
            AppMode::Settings => self.settings_key(key),
            AppMode::ThemePicker => self.theme_picker_key(key),
            AppMode::Diagnostic => self.diagnostic_key(key, calls),
            AppMode::LogDetail => self.log_detail_key(key),
            AppMode::Normal => self.normal_key(key, now),
            AppMode::AddQueryName => self.add_query_name_key(key),
            AppMode::AddQuerySearch => self.add_query_search_key(key),
            AppMode::ConfirmQuery => self.confirm_query_key(key),
            AppMode::DeleteQueryConfirm => self.delete_query_key(key),
            AppMode::EditMaxAgeDays => self.edit_max_age_key(key),
        };
        let ghost inner = eff@;
        if old_index != self.pr_list.selected_index() {
            match self.details_fetch() {
                Some(f) => {
                    eff.push(f);
                    assert(eff@.drop_last() =~= inner);
                },
                None => {},
            }
        }
        eff
    }

    /// Handles a scroll of the mouse wheel (see `scroll_step`).
    fn handle_scroll(&mut self, down: bool) -> (eff: Vec<Effect>)
        ensures
            with_fetch_on_move(*old(self), *final(self), eff@, |e: Seq<Effect>| scroll_step(*old(self), *final(self), down, e)),
    {
        let mut eff: Vec<Effect> = Vec::new();
        let n = self.pr_list.items().len();
        let sel = self.pr_list.selected_index();
        if self.mode == AppMode::Normal && down && sel < (if n > 0 { n - 1 } else { 0 }) {
            self.pr_list.select_next();
        } else if self.mode == AppMode::Normal && !down && sel > 0 {
            self.pr_list.select_prev();
        }
        if sel != self.pr_list.selected_index() {
            match self.details_fetch() {
                Some(f) => {
                    eff.push(f);
                    assert(eff@.drop_last() =~= Seq::<Effect>::empty());
                },
                None => {},
            }
        }
        eff
    }

    /// Handles a piece of input (see `input_handled`).
    pub fn handle_input(&mut self, e: InputEvent, now: Timestamp, calls: usize) -> (eff: Vec<Effect>)
        requires
            keys_ready(*old(self)),
        ensures
            input_handled(*old(self), *final(self), e, now, calls, eff@),
    {
        match e {
            InputEvent::Key(k) => self.handle_key(k, now, calls),
            InputEvent::ScrollDown => self.handle_scroll(true),
            InputEvent::ScrollUp => self.handle_scroll(false),
            InputEvent::Other => Vec::new(),
        }
    }

    /// Replaces the settings; the writing instance restarts polling.
    pub fn handle_config_reload(&mut self, new_config: AppConfig) -> (eff: Vec<Effect>)
        ensures
            *final(self) == (App { config: new_config, ..*old(self) }),
            eff@ == (if old(self).is_writer { seq![Effect::RestartPolling] } else { Seq::<Effect>::empty() }),
    {
        self.config = new_config;
        let mut eff: Vec<Effect> = Vec::new();
        if self.is_writer {
            eff.push(Effect::RestartPolling);
            assert(eff@ =~= seq![Effect::RestartPolling]);
        } else {
            assert(eff@ =~= Seq::<Effect>::empty());
        }
        eff
    }

    /// The first position of a pull request in `repo` with `number`.
    fn position_of(&self, repo: &str, number: u32) -> (r: Option<usize>)
        ensures
            r matches Some(i) ==> first_at(self.pr_list.spec_prs(), repo@, number, i as int),
            r is None ==> !exists|i: int| first_at(self.pr_list.spec_prs(), repo@, number, i),
    {
        let items = self.pr_list.items();
        let mut i: usize = 0;
        while i < items.len()
            invariant
                i <= items@.len(),
                items@ == self.pr_list.spec_prs(),
                forall|j: int| 0 <= j < i ==> !(#[trigger] items@[j].repo@ == repo@ && items@[j].number == number),
            decreases items.len() - i,
        {
            if items[i].number == number && str_eq(items[i].repo.as_str(), repo) {
                return Some(i);
            }
            i = i + 1;
        }
        proof {
            if exists|k: int| first_at(self.pr_list.spec_prs(), repo@, number, k) {
                let k = choose|k: int| first_at(self.pr_list.spec_prs(), repo@, number, k);
                assert(!(items@[k].repo@ == repo@ && items@[k].number == number));
            }
        }
        None
    }

    /// The selected pull request is the one in `repo` with `number`.
    fn is_selected(&self, repo: &str, number: u32) -> (b: bool)
        ensures
            b == selected_is(self.pr_list, repo@, number),
    {
        match self.pr_list.selected_pr() {
            Some(p) => p.number == number && str_eq(p.repo.as_str(), repo),
            None => false,
        }
    }

    fn timeline_loaded(&mut self, repo: String, pr_number: u32, events: Vec<TimelineEvent>, now: Timestamp) -> (eff: Vec<Effect>)
        requires
            quiet_period_in_range(old(self).config.attention.quiet_period_mins),
        ensures
            timeline_step(*old(self), *final(self), repo@, pr_number, events@, now, eff@),
    {
        let mut eff: Vec<Effect> = Vec::new();
        let shown = self.is_selected(repo.as_str(), pr_number);
        match self.position_of(repo.as_str(), pr_number) {
            Some(idx) => {
                let ghost i = idx as int;
                proof {
                    let k = choose|k: int| first_at(self.pr_list.spec_prs(), repo@, pr_number, k);
                    let prs = self.pr_list.spec_prs();
                    if k < i {
                        assert(!(prs[k].repo@ == repo@ && prs[k].number == pr_number));
                    } else if k > i {
                        assert(!(prs[i].repo@ == repo@ && prs[i].number == pr_number));
                    }
                }
                let mut copy: Vec<TimelineEvent> = Vec::new();
                let mut k: usize = 0;
                while k < events.len()
                    invariant
                        k <= events@.len(),
                        copy@ == events@.take(k as int),
                    decreases events.len() - k,
                {
                    copy.push(events[k].duplicate());
                    assert(events@.take(k as int).push(events@[k as int]) =~= events@.take(k + 1));
                    k = k + 1;
                }
                assert(events@.take(events@.len() as int) =~= events@);
                let id = self.pr_list.items()[idx].id.clone();
                self.pr_timelines.insert(id, copy);
                let pr = &self.pr_list.items()[idx];
                let new_attn = evaluate(Some(&pr.attention_state), Some(pr), pr, events.as_slice(),
                    self.config.current_user.as_str(), now, &self.config.attention);
                let items = self.pr_list.items_mut();
                let ghost before = items@;
                let mut updated = items.remove(idx);
                updated.attention_state = new_attn;
                items.insert(idx, updated);
                assert(items@ =~= before.update(i, items@[i]));
                if self.is_writer {
                    eff.push(Effect::SaveState);
                }
            },
            None => {},
        }
        if shown {
            self.current_timeline = events;
        }
        eff
    }
}

impl App {
    /// Handles an event of the loop (see `event_handled`); `now` is the
    /// current time and `calls` the number of entries in the log of GitHub
    /// calls.
    pub fn handle_app_event(&mut self, event: AppEvent, now: Timestamp, calls: usize) -> (eff: Vec<Effect>)
        requires
            ready(*old(self)),
        ensures
            event_handled(*old(self), *final(self), event, now, calls, eff@),
    {
        match event {
            AppEvent::Tick => {
                match self.error_time {
                    Some(t) => {
                        if span_nanos(now, t) > 10_000_000_000 {
                            self.error_message = None;
                            self.error_time = None;
                        }
                    },
                    None => {},
                }
                Vec::new()
            },
            AppEvent::Input(e) => self.handle_input(e, now, calls),
            AppEvent::PrsUpdated { query_name, prs } => {
                let detail = str_eq(query_name.as_str(), "detail");
                let mut eff = self.merge_prs(prs, query_name.as_str(), detail, now);
                let ghost inner = eff@;
                if self.is_writer {
                    eff.push(Effect::SaveState);
                    assert(eff@.take(eff@.len() - 1) =~= inner);
                } else {
                    assert(eff@.take(eff@.len() as int) =~= inner);
                }
                eff
            },
            AppEvent::CiStatusLoaded { repo, pr_number, checks } => {
                if self.is_selected(repo.as_str(), pr_number) {
                    self.current_checks = checks;
                }
                Vec::new()
            },
            AppEvent::TimelineLoaded { repo, pr_number, events } => self.timeline_loaded(repo, pr_number, events, now),
            AppEvent::ConfigReloaded(c) => self.handle_config_reload(c),
            AppEvent::StateReloaded(prs) => {
                let ghost v = prs@;
                self.pr_list.set_prs(prs);
                let ghost l = self.pr_list;
                self.sort_prs();
                assert(replaced(old(self).pr_list, v, l));
                Vec::new()
            },
            AppEvent::Error(m) => {
                self.error_message = Some(m);
                self.error_time = Some(now);
                Vec::new()
            },
            AppEvent::PollCycleStarted => {
                self.notifier.clear_cycle();
                Vec::new()
            },
            AppEvent::InitialSyncDone => {
                self.is_first_sync = false;
                let mut prs = clone_prs(self.pr_list.items());
                proof {
                    assert forall|x: PullRequest, y: PullRequest| #[trigger] x.spec_same(y)
                        implies attributed()(x) == attributed()(y) by {}
                    lemma_kept_copies(prs@, self.pr_list.spec_prs(), attributed());
                }
                retain_attributed(&mut prs);
                let ghost k = prs@;
                self.pr_list.set_prs(prs);
                assert(replaced(old(self).pr_list, k, self.pr_list));
                Vec::new()
            },
            AppEvent::QueryTested(res) => {
                self.is_testing_query = false;
                match res {
                    Ok(prs) => {
                        self.query_test_results = Some(prs);
                        self.query_test_error = None;
                    },
                    Err(e) => {
                        self.query_test_results = None;
                        self.query_test_error = Some(e);
                    },
                }
                Vec::new()
            },
        }
    }
}

} // verus!
