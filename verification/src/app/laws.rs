//! Properties of merging polls and unfollowing that hold for every input.
use vstd::prelude::*;
use crate::app::{App, AppMode, Effect, spec_details_fetch, sort_rel, unfollow_positions, unfollow_rel};
use crate::app::events::{input_handled, event_handled, AppEvent, InputEvent};
use crate::app::keys::{Key, KeyCode};
use crate::app::merge::{History, merge_all, merge_trace, concat_notes, poll_merged, shows, all_fetch, kept, not_archived};
use crate::domain::attention::TriggerReason;
use crate::domain::lifecycle::spec_should_auto_unfollow;
use crate::domain::pr::{PullRequest, PRStatus, TimelineEvent};
use crate::domain::pr_list::PRList;
use crate::domain::time::Timestamp;

verus! {

proof fn lemma_quiet_prefix(
    news: Seq<PullRequest>,
    q: Seq<char>,
    states: Seq<Seq<PullRequest>>,
    hs: Seq<History>,
    parts: Seq<Seq<(Seq<char>, Seq<char>)>>,
    flags: Seq<bool>,
    timelines: Map<Seq<char>, Seq<TimelineEvent>>,
    user: Seq<char>,
    now: Timestamp,
    quiet: u64,
    disabled: Set<TriggerReason>,
    enabled: bool,
    k: int,
)
    requires
        merge_trace(news, q, states, hs, parts, flags, timelines, user, now, quiet, disabled, true, enabled),
        0 <= k <= news.len(),
    ensures
        concat_notes(parts.take(k)) == Seq::<(Seq<char>, Seq<char>)>::empty(),
        hs[k] == hs[0],
    decreases k,
{
    if k > 0 {
        lemma_quiet_prefix(news, q, states, hs, parts, flags, timelines, user, now, quiet, disabled, enabled, k - 1);
        assert(parts.take(k).drop_last() =~= parts.take(k - 1));
        assert(parts.take(k).last() == parts[k - 1]);
        let i = k - 1;
        assert(crate::app::merge::merge_step(states[i], news[i], q, states[i + 1], timelines, user, now, quiet,
            disabled, true, enabled, hs[i], hs[i + 1], parts[i], flags[i]));
        assert(concat_notes(parts.take(k)) =~= Seq::<(Seq<char>, Seq<char>)>::empty());
    } else {
        assert(parts.take(0) =~= Seq::<Seq<(Seq<char>, Seq<char>)>>::empty());
    }
}

/// Until the first sync is done, merging polls notifies nothing and leaves
/// the notification history alone.
pub proof fn lemma_first_sync_is_quiet(
    cur: Seq<PullRequest>,
    news: Seq<PullRequest>,
    q: Seq<char>,
    out: Seq<PullRequest>,
    timelines: Map<Seq<char>, Seq<TimelineEvent>>,
    user: Seq<char>,
    now: Timestamp,
    quiet: u64,
    disabled: Set<TriggerReason>,
    enabled: bool,
    h0: History,
    h1: History,
    notes: Seq<(Seq<char>, Seq<char>)>,
    fetches: nat,
)
    requires
        merge_all(cur, news, q, out, timelines, user, now, quiet, disabled, true, enabled, h0, h1, notes, fetches),
    ensures
        notes == Seq::<(Seq<char>, Seq<char>)>::empty(),
        h1 == h0,
{
    let (states, hs, parts, flags) = choose|states: Seq<Seq<PullRequest>>, hs: Seq<History>,
        parts: Seq<Seq<(Seq<char>, Seq<char>)>>, flags: Seq<bool>|
        #[trigger] merge_trace(news, q, states, hs, parts, flags, timelines, user, now, quiet, disabled, true, enabled)
        && states[0] == cur && states.last() == out && hs[0] == h0 && hs.last() == h1
        && notes == crate::app::merge::concat_notes(parts) && fetches == crate::app::merge::count_set(flags);
    lemma_quiet_prefix(news, q, states, hs, parts, flags, timelines, user, now, quiet, disabled, enabled,
        news.len() as int);
    assert(parts.take(news.len() as int) =~= parts);
}

proof fn lemma_gone_positions(prs: Seq<PullRequest>, timeout: u64, now: Timestamp)
    ensures
        forall|i: int| 0 <= i < unfollow_positions(prs, timeout, now, true).len() ==> {
            let g = #[trigger] unfollow_positions(prs, timeout, now, true)[i];
            0 <= g < prs.len() && spec_should_auto_unfollow(prs[g], timeout, now)
        },
    decreases prs.len(),
{
    if prs.len() > 0 {
        lemma_gone_positions(prs.drop_last(), timeout, now);
        let init = unfollow_positions(prs.drop_last(), timeout, now, true);
        assert forall|i: int| 0 <= i < init.len() implies prs.drop_last()[#[trigger] init[i]] == prs[init[i]] by {
            let g = init[i];
            assert(0 <= g < prs.drop_last().len());
        }
    }
}

/// Unfollowing moves only closed or merged pull requests to the archive.
pub proof fn lemma_unfollowed_are_finished(
    list0: PRList,
    arch0: PRList,
    list1: PRList,
    arch1: PRList,
    is_writer: bool,
    timeout: u64,
    now: Timestamp,
    effects: Seq<Effect>,
    j: int,
)
    requires
        unfollow_rel(list0, arch0, list1, arch1, is_writer, timeout, now, effects),
        0 <= j < unfollow_positions(list0.spec_prs(), timeout, now, true).len(),
        is_writer,
    ensures
        arch1.spec_prs()[j].status != PRStatus::Open,
{
    let prs = list0.spec_prs();
    let gone = unfollow_positions(prs, timeout, now, true);
    lemma_gone_positions(prs, timeout, now);
    assert(arch1.spec_prs().take(gone.len() as int)[j] == arch1.spec_prs()[j]);
    assert(spec_should_auto_unfollow(prs[gone[j]], timeout, now));
}

/// A key that only moves the cursor in the normal mode.
pub open spec fn is_navigation_key(key: Key) -> bool {
    !key.ctrl && (key.code == KeyCode::Char('j') || key.code == KeyCode::Char('k') || key.code == KeyCode::Down
        || key.code == KeyCode::Up || key.code == KeyCode::Char('g') || key.code == KeyCode::Char('G'))
}

/// Moving the cursor does not clear unread status: in the normal mode the
/// navigation keys and the mouse wheel leave every pull request, with its
/// seen markers and attention state, as it was.
pub proof fn lemma_navigation_keeps_seen(a0: App, a1: App, e: InputEvent, now: Timestamp, calls: usize, eff: Seq<Effect>)
    requires
        a0.mode == AppMode::Normal,
        match e {
            InputEvent::Key(k) => is_navigation_key(k),
            InputEvent::ScrollUp | InputEvent::ScrollDown => true,
            InputEvent::Other => true,
        },
        input_handled(a0, a1, e, now, calls, eff),
    ensures
        a1.pr_list.spec_prs() == a0.pr_list.spec_prs(),
        a1.archive_list == a0.archive_list,
{
}

/// The effect writes the stored state, archive or settings, or restarts
/// polling.
pub open spec fn writes(e: Effect) -> bool {
    e is SaveState || e is SaveArchive || e is ArchivePr || e is SaveConfig || e is RestartPolling
}

/// Only the writing instance writes: for an instance that holds the shared
/// lock, an event that comes from GitHub, from the settings file or from the
/// writing instance (anything but the user's input) asks for no write and no
/// restart of polling, and leaves the archive as it was.
pub proof fn lemma_reader_never_writes(a0: App, a1: App, ev: AppEvent, now: Timestamp, calls: usize, eff: Seq<Effect>)
    requires
        !a0.is_writer,
        !(ev is Input),
        event_handled(a0, a1, ev, now, calls, eff),
    ensures
        forall|i: int| 0 <= i < eff.len() ==> !writes(#[trigger] eff[i]),
        a1.archive_list == a0.archive_list,
{
    assert(eff.take(eff.len() as int) =~= eff);
    match ev {
        AppEvent::PrsUpdated { query_name, prs } => {
            if query_name@ != "detail"@ {
                assert(poll_merged(a0, a1, prs@, query_name@, now, eff));
                let (c0, merged, h1, notes, fetches, l1, l2, ue) = choose|c0: Seq<PullRequest>,
                    merged: Seq<PullRequest>, h1: History, notes: Seq<(Seq<char>, Seq<char>)>, fetches: nat,
                    l1: PRList, l2: PRList, ue: Seq<Effect>|
                    #![trigger merge_all(c0, kept(prs@, not_archived(a0.archive_list.spec_prs())), query_name@, merged, a0.pr_timelines@, a0.config.current_user@, now,
                        a0.config.attention.quiet_period_mins, a0.config.attention.disabled_reasons@,
                        a0.is_first_sync, a0.notifier.spec_enabled(), a0.notifier.spec_history(), h1, notes,
                        fetches),
                        sort_rel(l1, l2, a0.config.group_by, a0.sort_mode, a0.config.current_user@),
                        unfollow_rel(l2, a0.archive_list, a1.pr_list, a1.archive_list, a0.is_writer,
                            a0.config.unfollow_timeout_mins, now, ue)]
                    {
                        let n = notes.len() as int;
                        let fc = if spec_details_fetch(a0.pr_list) is Some { fetches as int } else { 0 };
                        &&& merge_all(c0, kept(prs@, not_archived(a0.archive_list.spec_prs())), query_name@, merged, a0.pr_timelines@, a0.config.current_user@, now,
                            a0.config.attention.quiet_period_mins, a0.config.attention.disabled_reasons@,
                            a0.is_first_sync, a0.notifier.spec_enabled(), a0.notifier.spec_history(), h1, notes,
                            fetches)
                        &&& sort_rel(l1, l2, a0.config.group_by, a0.sort_mode, a0.config.current_user@)
                        &&& unfollow_rel(l2, a0.archive_list, a1.pr_list, a1.archive_list, a0.is_writer,
                            a0.config.unfollow_timeout_mins, now, ue)
                        &&& eff.len() == n + fc + ue.len()
                        &&& shows(eff.take(n), notes)
                        &&& (spec_details_fetch(a0.pr_list) matches Some(t)
                            ==> all_fetch(eff.subrange(n, n + fc), t))
                        &&& eff.skip(n + fc) == ue
                    };
                let n = notes.len() as int;
                let fc = if spec_details_fetch(a0.pr_list) is Some { fetches as int } else { 0 };
                assert forall|i: int| 0 <= i < eff.len() implies !writes(#[trigger] eff[i]) by {
                    if i < n {
                        assert(eff.take(n)[i] == eff[i]);
                    } else {
                        assert(eff.subrange(n, n + fc)[i - n] == eff[i]);
                    }
                }
            }
        },
        _ => {},
    }
}

} // verus!
