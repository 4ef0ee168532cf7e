//! The application's state and the decisions of its event loop. Drawing,
//! terminal input, the GitHub CLI, files and desktop notifications are the
//! shell's work: it hands events in and carries out the effects handed back.
use vstd::prelude::*;
use crate::config::AppConfig;
use crate::domain::lifecycle::{spec_should_auto_unfollow, should_auto_unfollow_at, timeout_in_range};
use crate::domain::pr::{CheckRun, PullRequest, TimelineEvent, copies_at};
use crate::domain::pr_list::{PRList, has_id, first_with_id, clamp_selection};
use crate::domain::sort_order::{sorted_prs, spec_sorted_copy};
use crate::domain::time::Timestamp;
use crate::domain::timeline_store::TimelineStore;
use crate::notify::dispatcher::{DesktopNotification, NotificationDispatcher};

pub mod events;
pub mod keys;
pub mod laws;
pub mod merge;

verus! {

/// The screen or prompt the application is in.
#[derive(Debug, Clone, Copy, PartialEq, Eq, Structural)]
pub enum AppMode {
    Normal,
    Search,
    Follow,
    Settings,
    Archive,
    Help,
    Diagnostic,
    LogDetail,
    AddQueryName,
    AddQuerySearch,
    ConfirmQuery,
    DeleteQueryConfirm,
    ThemePicker,
    EditMaxAgeDays,
}

/// The order of the pull request list.
#[derive(Debug, Clone, Copy, PartialEq, Eq, Structural)]
pub enum SortMode {
    Updated,
    Created,
    Priority,
    Repo,
}

/// Work the shell carries out for the application.
#[derive(Debug)]
pub enum Effect {
    /// Save the active list.
    SaveState,
    /// Save the archive list.
    SaveArchive,
    /// Add the pull request to the stored archive.
    ArchivePr(PullRequest),
    /// Load the stored archive into the archive list.
    ReloadArchive,
    /// Open the URL in the browser.
    OpenInBrowser(String),
    /// Put the text on the clipboard.
    CopyToClipboard(String),
    /// Put the command of the diagnostic entry at this position (newest
    /// first) on the clipboard.
    CopyDiagnostic(usize),
    /// Fetch the details, checks and timeline of the pull request in this
    /// repository with this number.
    FetchDetails(String, u32),
    /// Fetch the pull request in this repository with this number and
    /// follow it.
    FollowPr(String, u32),
    /// Run the search query, showing a few of its results.
    TestQuery(String),
    /// Save the settings.
    SaveConfig,
    /// Restart polling with the current settings.
    RestartPolling,
    /// Show the desktop notification.
    Notify(DesktopNotification),
}

/// Everything the application decides on.
pub struct App {
    pub pr_list: PRList,
    pub archive_list: PRList,
    pub settings_selected_index: usize,
    pub diagnostic_selected_index: usize,
    pub should_quit: bool,
    pub current_checks: Vec<CheckRun>,
    pub current_timeline: Vec<TimelineEvent>,
    pub config: AppConfig,
    pub is_writer: bool,
    pub mode: AppMode,
    pub sort_mode: SortMode,
    pub detail_focused: bool,
    pub detail_scroll: u16,
    pub input_buffer: String,
    pub notifier: NotificationDispatcher,
    pub last_refresh: Option<Timestamp>,
    pub is_first_sync: bool,
    pub error_message: Option<String>,
    pub error_time: Option<Timestamp>,
    pub query_name_buffer: String,
    pub query_search_buffer: String,
    pub query_test_results: Option<Vec<PullRequest>>,
    pub query_test_error: Option<String>,
    pub is_testing_query: bool,
    pub pr_timelines: TimelineStore,
    pub theme_picker_index: usize,
    pub theme_picker_original: Option<String>,
    pub editing_query_index: Option<usize>,
    pub deleting_query_index: Option<usize>,
    pub max_age_days_buffer: String,
    pub dropped_prs: Vec<PullRequest>,
}

/// The positions in `prs` of the pull requests that are (`want`) or are not
/// due to leave the active list, in order.
pub open spec fn unfollow_positions(prs: Seq<PullRequest>, timeout: u64, now: Timestamp, want: bool) -> Seq<int>
    decreases prs.len(),
{
    if prs.len() == 0 {
        Seq::empty()
    } else {
        let init = unfollow_positions(prs.drop_last(), timeout, now, want);
        if spec_should_auto_unfollow(prs.last(), timeout, now) == want {
            init.push(prs.len() - 1)
        } else {
            init
        }
    }
}

/// The effect that fetches the details of the selected pull request, if
/// one is selected.
pub open spec fn spec_details_fetch(list: PRList) -> Option<(Seq<char>, u32)> {
    if list.spec_selected() < list.spec_prs().len() {
        let p = list.spec_prs()[list.spec_selected()];
        Some((p.repo@, p.number))
    } else {
        None
    }
}

/// The list after its items were replaced by `prs`, as `PRList::set_prs`
/// leaves it.
pub open spec fn replaced(before: PRList, prs: Seq<PullRequest>, after: PRList) -> bool {
    &&& after.spec_prs() == prs
    &&& {
        let old_sel = before.spec_selected();
        let old_prs = before.spec_prs();
        if old_sel < old_prs.len() && has_id(prs, old_prs[old_sel].id@) {
            first_with_id(prs, old_prs[old_sel].id@, after.spec_selected())
        } else {
            after.spec_selected() == clamp_selection(old_sel, prs.len() as int)
        }
    }
}

/// `after` is `before` sorted for the list (see `sorted_prs`), with the
/// selection following the selected pull request.
pub open spec fn sort_rel(before: PRList, after: PRList, mode: crate::config::GroupMode, sort: SortMode, user: Seq<char>) -> bool {
    exists|sorted: Seq<PullRequest>| spec_sorted_copy(sorted, before.spec_prs(), mode, sort, user)
        && #[trigger] replaced(before, sorted, after)
}

/// What `App::check_auto_unfollow` does to the lists (`list0`, `arch0` before,
/// `list1`, `arch1` after) and which effects it asks for.
pub open spec fn unfollow_rel(
    list0: PRList,
    arch0: PRList,
    list1: PRList,
    arch1: PRList,
    is_writer: bool,
    timeout: u64,
    now: Timestamp,
    effects: Seq<Effect>,
) -> bool {
    let prs = list0.spec_prs();
    let gone = unfollow_positions(prs, timeout, now, true);
    let kept = unfollow_positions(prs, timeout, now, false);
    let n = gone.len();
    if !is_writer || n == 0 {
        &&& list1 == list0
        &&& arch1 == arch0
        &&& effects.len() == 0
    } else {
        &&& exists|k: Seq<PullRequest>| copies_at(k, prs, kept) && #[trigger] replaced(list0, k, list1)
        &&& arch1.spec_prs().len() == n + arch0.spec_prs().len()
        &&& copies_at(arch1.spec_prs().take(n as int), prs, gone)
        &&& arch1.spec_prs().skip(n as int) == arch0.spec_prs()
        &&& arch1.spec_selected() == arch0.spec_selected()
        &&& effects.len() == n + 1
        &&& forall|i: int| 0 <= i < n ==> (#[trigger] effects[i] matches Effect::ArchivePr(p)
            && p.spec_same(prs[gone[n - 1 - i]]))
        &&& effects[n as int] is SaveState
    }
}

/// The effect fetches the details of this repository and number.
pub open spec fn is_fetch(e: Effect, target: (Seq<char>, u32)) -> bool {
    e matches Effect::FetchDetails(repo, number) && repo@ == target.0 && number == target.1
}

impl App {
    /// The application on start: the stored lists, the first item selected,
    /// the normal mode sorted by update, nothing fetched yet, notifications on.
    pub fn new(config: AppConfig, prs: Vec<PullRequest>, archived: Vec<PullRequest>, is_writer: bool) -> (r: App)
        ensures
            r.pr_list.spec_prs() == prs@,
            r.pr_list.spec_selected() == 0,
            r.archive_list.spec_prs() == archived@,
            r.archive_list.spec_selected() == 0,
            r.config == config,
            r.is_writer == is_writer,
            r.mode == AppMode::Normal,
            r.sort_mode == SortMode::Updated,
            r.is_first_sync,
            !r.should_quit,
            r.notifier.spec_enabled(),
            r.notifier.spec_history() == Set::<(Seq<char>, crate::notify::dispatcher::NotificationEvent)>::empty(),
            r.pr_timelines@ == Map::<Seq<char>, Seq<TimelineEvent>>::empty(),
            r.settings_selected_index == 0,
            r.diagnostic_selected_index == 0,
            r.input_buffer@ == Seq::<char>::empty(),
            r.error_message is None,
            r.error_time is None,
            r.last_refresh is None,
            r.current_checks@.len() == 0,
            r.current_timeline@.len() == 0,
            !r.detail_focused,
            r.detail_scroll == 0,
            r.query_name_buffer@ == Seq::<char>::empty(),
            r.query_search_buffer@ == Seq::<char>::empty(),
            r.query_test_results is None,
            r.query_test_error is None,
            !r.is_testing_query,
            r.theme_picker_index == 0,
            r.theme_picker_original is None,
            r.editing_query_index is None,
            r.deleting_query_index is None,
            r.max_age_days_buffer@ == Seq::<char>::empty(),
            r.dropped_prs@.len() == 0,
    {
        App {
            pr_list: PRList::new(prs),
            archive_list: PRList::new(archived),
            settings_selected_index: 0,
            diagnostic_selected_index: 0,
            should_quit: false,
            current_checks: Vec::new(),
            current_timeline: Vec::new(),
            config,
            is_writer,
            mode: AppMode::Normal,
            sort_mode: SortMode::Updated,
            detail_focused: false,
            detail_scroll: 0,
            input_buffer: String::new(),
            notifier: NotificationDispatcher::new(true),
            last_refresh: None,
            is_first_sync: true,
            error_message: None,
            error_time: None,
            query_name_buffer: String::new(),
            query_search_buffer: String::new(),
            query_test_results: None,
            query_test_error: None,
            is_testing_query: false,
            pr_timelines: TimelineStore::new(),
            theme_picker_index: 0,
            theme_picker_original: None,
            editing_query_index: None,
            deleting_query_index: None,
            max_age_days_buffer: String::new(),
            dropped_prs: Vec::new(),
        }
    }

    /// The fetch of the selected pull request's details, if one is selected.
    pub fn details_fetch(&self) -> (r: Option<Effect>)
        ensures
            match spec_details_fetch(self.pr_list) {
                Some(t) => r matches Some(e) && is_fetch(e, t),
                None => r is None,
            },
    {
        match self.pr_list.selected_pr() {
            Some(p) => Some(Effect::FetchDetails(p.repo.clone(), p.number)),
            None => None,
        }
    }

    /// Sorts the active list: grouped by the grouping mode, then by the sort
    /// mode, equal pull requests keeping their order; the selected pull
    /// request stays selected.
    pub fn sort_prs(&mut self)
        ensures
            sort_rel(old(self).pr_list, final(self).pr_list, old(self).config.group_by, old(self).sort_mode,
                old(self).config.current_user@),
            *final(self) == (App { pr_list: final(self).pr_list, ..*old(self) }),
    {
        let prs = sorted_prs(self.pr_list.items(), self.config.group_by, self.sort_mode,
            self.config.current_user.as_str());
        let ghost s = prs@;
        self.pr_list.set_prs(prs);
        assert(replaced(old(self).pr_list, s, self.pr_list));
    }

    /// Moves the closed or merged pull requests that were last updated at
    /// least the unfollow timeout before `now` to the front of the archive,
    /// in their list order. Only the writing instance does this. The
    /// effects add each to the stored archive, the last one first, and then
    /// save the active list; nothing happens when none is due.
    pub fn check_auto_unfollow(&mut self, now: Timestamp) -> (effects: Vec<Effect>)
        requires
            old(self).is_writer ==> timeout_in_range(old(self).config.unfollow_timeout_mins),
        ensures
            unfollow_rel(old(self).pr_list, old(self).archive_list, final(self).pr_list, final(self).archive_list,
                old(self).is_writer, old(self).config.unfollow_timeout_mins, now, effects@),
            *final(self) == (App { pr_list: final(self).pr_list, archive_list: final(self).archive_list, ..*old(self) }),
    {
        let mut effects: Vec<Effect> = Vec::new();
        if !self.is_writer {
            return effects;
        }
        let timeout = self.config.unfollow_timeout_mins;
        let items = self.pr_list.items();
        let ghost prs = items@;
        let mut kept: Vec<PullRequest> = Vec::new();
        let mut gone: Vec<PullRequest> = Vec::new();
        let mut i: usize = 0;
        while i < items.len()
            invariant
                i <= items@.len(),
                prs == items@,
                timeout_in_range(timeout),
                copies_at(kept@, prs, unfollow_positions(prs.take(i as int), timeout, now, false)),
                copies_at(gone@, prs, unfollow_positions(prs.take(i as int), timeout, now, true)),
            decreases items.len() - i,
        {
            proof {
                assert(prs.take(i + 1).drop_last() =~= prs.take(i as int));
                assert(prs.take(i + 1).last() == prs[i as int]);
            }
            if should_auto_unfollow_at(&items[i], timeout, now) {
                gone.push(items[i].duplicate());
            } else {
                kept.push(items[i].duplicate());
            }
            i = i + 1;
        }
        proof {
            assert(prs.take(prs.len() as int) =~= prs);
        }
        let n = gone.len();
        if n == 0 {
            return effects;
        }
        let ghost old_archive = self.archive_list.spec_prs();
        let mut k: usize = n;
        while k > 0
            invariant
                k <= n,
                n == gone@.len(),
                *self == (App { archive_list: self.archive_list, ..*old(self) }),
                self.archive_list.spec_selected() == old(self).archive_list.spec_selected(),
                old_archive == old(self).archive_list.spec_prs(),
                self.archive_list.spec_prs().len() == (n - k) + old_archive.len(),
                forall|j: int| 0 <= j < n - k ==> (#[trigger] self.archive_list.spec_prs()[j]).spec_same(gone@[k + j]),
                self.archive_list.spec_prs().skip(n - k) == old_archive,
                effects@.len() == n - k,
                forall|j: int| 0 <= j < n - k ==> (#[trigger] effects@[j] matches Effect::ArchivePr(p)
                    && p.spec_same(gone@[n - 1 - j])),
            decreases k,
        {
            k = k - 1;
            let ghost before = self.archive_list.spec_prs();
            self.archive_list.insert_at_front(gone[k].duplicate());
            effects.push(Effect::ArchivePr(gone[k].duplicate()));
            proof {
                assert(self.archive_list.spec_prs().skip(n - k) =~= before.skip(n - k - 1));
                assert forall|j: int| 0 <= j < n - k implies (#[trigger] self.archive_list.spec_prs()[j]).spec_same(gone@[k + j]) by {
                    if j > 0 {
                        assert(self.archive_list.spec_prs()[j] == before[j - 1]);
                    }
                }
            }
        }
        let ghost kept_view = kept@;
        self.pr_list.set_prs(kept);
        effects.push(Effect::SaveState);
        proof {
            let prs0 = old(self).pr_list.spec_prs();
            let gone_idx = unfollow_positions(prs0, timeout, now, true);
            assert(replaced(old(self).pr_list, kept_view, self.pr_list));
            let arch = self.archive_list.spec_prs();
            assert forall|j: int| 0 <= j < gone_idx.len() implies 0 <= #[trigger] gone_idx[j] < prs0.len()
                && arch.take(n as int)[j].spec_same(prs0[gone_idx[j]]) by {
                assert(arch.take(n as int)[j] == arch[j]);
            }
        }
        effects
    }
}

} // verus!
