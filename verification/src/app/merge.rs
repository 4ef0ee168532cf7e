//! Merging a poll's pull requests into the active list.
use vstd::prelude::*;
use crate::app::{App, Effect, spec_details_fetch, is_fetch, replaced, sort_rel, unfollow_rel};
use crate::domain::attention::{
    AttentionConfig, AttentionState, AttentionStateView, TriggerReason, evaluate, spec_evaluate,
    quiet_period_in_range,
};
use crate::domain::lifecycle::timeout_in_range;
use crate::domain::attention::{spec_list_has, list_has};
use crate::domain::pr::{PullRequest, TimelineEvent, clone_opt_string, clone_prs, clone_strings, copies_of};
use crate::domain::pr_list::{PRList, has_id, first_with_id};
use crate::domain::timeline_store::{TimelineStore, timeline_of};
use crate::domain::time::Timestamp;
use crate::notify::dispatcher::{
    DesktopNotification, NotificationDispatcher, NotificationEvent, note_views, spec_update_notes,
    update_kinds, spec_new_pr_notes,
};
use crate::util::text::str_eq;
use crate::ui::theme::string_views;

verus! {

/// Notification history: the (pull request id, kind) pairs already sent.
pub type History = Set<(Seq<char>, NotificationEvent)>;

/// Two pull requests agree on every field that a poll brings (all but the
/// seen markers and the attention state).
pub open spec fn same_polled(a: PullRequest, b: PullRequest) -> bool {
    &&& same_fetched(a, b)
    &&& a.matched_queries@ == b.matched_queries@
}

/// Two pull requests agree on every field that GitHub returns.
pub open spec fn same_fetched(a: PullRequest, b: PullRequest) -> bool {
    &&& a.id == b.id
    &&& a.number == b.number
    &&& a.title == b.title
    &&& a.author == b.author
    &&& a.repo == b.repo
    &&& a.status == b.status
    &&& a.created_at == b.created_at
    &&& a.updated_at == b.updated_at
    &&& a.additions == b.additions
    &&& a.deletions == b.deletions
    &&& a.review_status == b.review_status
    &&& a.comment_count == b.comment_count
    &&& a.unresolved_count == b.unresolved_count
    &&& a.total_resolvable_count == b.total_resolvable_count
    &&& a.conversational_count == b.conversational_count
    &&& a.ci_status == b.ci_status
    &&& a.mergeable == b.mergeable
    &&& a.head_ref == b.head_ref
    &&& a.body == b.body
    &&& a.url == b.url
    &&& a.requested_reviewers@ == b.requested_reviewers@
    &&& a.reviewers@ == b.reviewers@
    &&& a.is_draft == b.is_draft
}

/// Two pull requests agree on the seen markers.
pub open spec fn same_seen(a: PullRequest, b: PullRequest) -> bool {
    &&& a.last_seen_at == b.last_seen_at
    &&& a.last_seen_unresolved_count == b.last_seen_unresolved_count
    &&& a.last_seen_total_resolvable_count == b.last_seen_total_resolvable_count
    &&& a.last_seen_conversational_count == b.last_seen_conversational_count
}

/// `r` is the fetched `new` with the seen markers of `old` and attention `attn`.
pub open spec fn merged_pr(r: PullRequest, old: PullRequest, new: PullRequest, attn: AttentionStateView) -> bool {
    same_fetched(r, new) && same_seen(r, old) && r.attention_state@ == attn
}

/// `r` lists the queries of `base` and the query `q` (added at the end when
/// `base` does not list it yet).
pub open spec fn attributed_to(r: Seq<String>, base: Seq<String>, q: Seq<char>) -> bool {
    if spec_list_has(base, q) {
        r == base
    } else {
        &&& r.len() == base.len() + 1
        &&& r.drop_last() == base
        &&& r.last()@ == q
    }
}

/// The attention state was never evaluated: no reason, nothing seen, no
/// comment known (as a stored pull request from before attention states).
pub open spec fn never_evaluated(s: AttentionStateView) -> bool {
    &&& s.active == Set::<TriggerReason>::empty()
    &&& s.last_seen_at is None
    &&& s.last_comment_at is None
}

/// The attention a poll gives a listed pull request: a state that was never
/// evaluated is evaluated as on a first appearance; otherwise the state is
/// re-evaluated from the pull request as listed before.
pub open spec fn polled_attention(
    old: PullRequest,
    new: PullRequest,
    timelines: Map<Seq<char>, Seq<TimelineEvent>>,
    user: Seq<char>,
    now: Timestamp,
    quiet: u64,
    disabled: Set<TriggerReason>,
) -> AttentionStateView {
    if never_evaluated(old.attention_state@) {
        spec_evaluate(None, None, new, timeline_of(timelines, new.id@), user, now, quiet as i64 as int, disabled)
    } else {
        spec_evaluate(Some(old.attention_state@), Some(old), new, timeline_of(timelines, new.id@), user, now,
            quiet as i64 as int, disabled)
    }
}

/// The pull requests for which `keep` holds, in order.
pub open spec fn kept(prs: Seq<PullRequest>, keep: spec_fn(PullRequest) -> bool) -> Seq<PullRequest>
    decreases prs.len(),
{
    if prs.len() == 0 {
        Seq::empty()
    } else if keep(prs[0]) {
        seq![prs[0]] + kept(prs.drop_first(), keep)
    } else {
        kept(prs.drop_first(), keep)
    }
}

/// The pull request is not in the archive `arch` (by id).
pub open spec fn not_archived(arch: Seq<PullRequest>) -> spec_fn(PullRequest) -> bool {
    |p: PullRequest| !has_id(arch, p.id@)
}

/// The pull request is listed under some query.
pub open spec fn attributed() -> spec_fn(PullRequest) -> bool {
    |p: PullRequest| p.matched_queries@.len() > 0
}

/// Keeping copies keeps copies, for a test that copies agree on.
pub proof fn lemma_kept_copies(a: Seq<PullRequest>, b: Seq<PullRequest>, keep: spec_fn(PullRequest) -> bool)
    requires
        copies_of(a, b),
        forall|x: PullRequest, y: PullRequest| #[trigger] x.spec_same(y) ==> keep(x) == keep(y),
    ensures
        copies_of(kept(a, keep), kept(b, keep)),
    decreases a.len(),
{
    if a.len() > 0 {
        assert(a[0].spec_same(b[0]));
        assert(copies_of(a.drop_first(), b.drop_first())) by {
            assert forall|i: int| 0 <= i < b.drop_first().len() implies
                #[trigger] a.drop_first()[i].spec_same(b.drop_first()[i]) by {
                assert(a[i + 1].spec_same(b[i + 1]));
            }
        }
        lemma_kept_copies(a.drop_first(), b.drop_first(), keep);
        let ra = kept(a.drop_first(), keep);
        let rb = kept(b.drop_first(), keep);
        if keep(a[0]) {
            assert forall|i: int| 0 <= i < (seq![b[0]] + rb).len() implies
                #[trigger] (seq![a[0]] + ra)[i].spec_same((seq![b[0]] + rb)[i]) by {
                if i > 0 {
                    assert(ra[i - 1].spec_same(rb[i - 1]));
                }
            }
        }
    }
}

/// The names of the queries of `qs` other than `q`, in order.
pub open spec fn other_queries(qs: Seq<String>, q: Seq<char>) -> Seq<Seq<char>>
    decreases qs.len(),
{
    if qs.len() == 0 {
        Seq::empty()
    } else if qs.last()@ == q {
        other_queries(qs.drop_last(), q)
    } else {
        other_queries(qs.drop_last(), q).push(qs.last()@)
    }
}

/// A poll by `q` that listed `news` does not list `p`, though `p` is listed
/// under `q`.
pub open spec fn unlisted_by(p: PullRequest, news: Seq<PullRequest>, q: Seq<char>) -> bool {
    !has_id(news, p.id@) && spec_list_has(p.matched_queries@, q)
}

/// `stay` is `prs` after a poll by `q` that listed `news`: a pull request
/// listed under `q` that the poll did not list is no longer listed under
/// `q`, and leaves when it was listed under no other query; the others stay
/// as they were, in order.
pub open spec fn unlisted_rel(prs: Seq<PullRequest>, news: Seq<PullRequest>, q: Seq<char>, stay: Seq<PullRequest>)
    -> bool
    decreases prs.len(),
{
    if prs.len() == 0 {
        stay.len() == 0
    } else {
        let p = prs.last();
        if !unlisted_by(p, news, q) {
            stay.len() > 0 && stay.last() == p && unlisted_rel(prs.drop_last(), news, q, stay.drop_last())
        } else if other_queries(p.matched_queries@, q).len() == 0 {
            unlisted_rel(prs.drop_last(), news, q, stay)
        } else {
            &&& stay.len() > 0
            &&& stay.last() == (PullRequest { matched_queries: stay.last().matched_queries, ..p })
            &&& string_views(stay.last().matched_queries@) == other_queries(p.matched_queries@, q)
            &&& unlisted_rel(prs.drop_last(), news, q, stay.drop_last())
        }
    }
}

/// The pull requests of `prs` that leave after a poll by `q` that listed
/// `news` (see `unlisted_rel`), in order.
pub open spec fn left_behind(prs: Seq<PullRequest>, news: Seq<PullRequest>, q: Seq<char>) -> Seq<PullRequest>
    decreases prs.len(),
{
    if prs.len() == 0 {
        Seq::empty()
    } else {
        let rest = left_behind(prs.drop_last(), news, q);
        let p = prs.last();
        if unlisted_by(p, news, q) && other_queries(p.matched_queries@, q).len() == 0 {
            rest.push(p)
        } else {
            rest
        }
    }
}

/// A pull request that left the list comes back with a poll that lists it
/// (by id) while it is not listed.
pub open spec fn returning(news: Seq<PullRequest>, listed: Seq<PullRequest>) -> spec_fn(PullRequest) -> bool {
    |p: PullRequest| has_id(news, p.id@) && !has_id(listed, p.id@)
}

/// A pull request that left the list stays away from a poll that does not
/// bring it back (see `returning`).
pub open spec fn staying_away(news: Seq<PullRequest>, listed: Seq<PullRequest>) -> spec_fn(PullRequest) -> bool {
    |p: PullRequest| !(has_id(news, p.id@) && !has_id(listed, p.id@))
}

/// The names of `qs` other than `q` (see `other_queries`).
fn remove_query(qs: &Vec<String>, q: &str) -> (r: Vec<String>)
    ensures
        string_views(r@) == other_queries(qs@, q@),
{
    let mut out: Vec<String> = Vec::new();
    let mut i: usize = 0;
    while i < qs.len()
        invariant
            i <= qs.len(),
            string_views(out@) == other_queries(qs@.take(i as int), q@),
        decreases qs.len() - i,
    {
        let ghost before = out@;
        assert(qs@.take(i + 1).drop_last() =~= qs@.take(i as int));
        if !str_eq(qs[i].as_str(), q) {
            out.push(qs[i].clone());
            assert(string_views(out@) =~= string_views(before).push(qs@[i as int]@));
        }
        i = i + 1;
    }
    assert(qs@.take(qs@.len() as int) =~= qs@);
    out
}

/// Splits the list after a poll by `q` that listed `news` into the pull
/// requests that stay (see `unlisted_rel`) and those that leave (see
/// `left_behind`).
fn detach_unlisted(prs: Vec<PullRequest>, news: &[PullRequest], q: &str) -> (r: (Vec<PullRequest>, Vec<PullRequest>))
    ensures
        unlisted_rel(prs@, news@, q@, r.0@),
        r.1@ == left_behind(prs@, news@, q@),
{
    let ghost all = prs@;
    assert(all.len() == prs.len());
    let mut rest = prs;
    let mut stay: Vec<PullRequest> = Vec::new();
    let mut gone: Vec<PullRequest> = Vec::new();
    let mut i: usize = 0;
    while rest.len() > 0
        invariant
            i + rest@.len() == all.len(),
            all.len() <= usize::MAX,
            rest@ == all.skip(i as int),
            unlisted_rel(all.take(i as int), news@, q@, stay@),
            gone@ == left_behind(all.take(i as int), news@, q@),
        decreases rest.len(),
    {
        let ghost before = rest@;
        let mut p = rest.remove(0);
        proof {
            assert(rest@ =~= all.skip(i + 1));
            assert(all.take(i + 1).drop_last() =~= all.take(i as int));
            assert(all.take(i + 1).last() == all[i as int]);
            assert(before[0] == all[i as int]);
        }
        let listed_now = find_by_id(news, p.id.as_str()).is_some();
        if listed_now || !list_has(&p.matched_queries, q) {
            let ghost st = stay@;
            stay.push(p);
            assert(stay@.drop_last() =~= st);
        } else {
            let others = remove_query(&p.matched_queries, q);
            if others.len() == 0 {
                gone.push(p);
            } else {
                let ghost st = stay@;
                p.matched_queries = others;
                stay.push(p);
                assert(stay@.drop_last() =~= st);
            }
        }
        i = i + 1;
    }
    assert(all.take(all.len() as int) =~= all);
    (stay, gone)
}

/// After the first sync, the pull requests that a poll by `q` no longer
/// lists leave `prs` for `dropped` (see `unlisted_rel`, `left_behind`);
/// during it, nothing changes.
fn settle_unlisted(prs: Vec<PullRequest>, dropped: &mut Vec<PullRequest>, news: &[PullRequest], q: &str,
    first_sync: bool) -> (stay: Vec<PullRequest>)
    ensures
        first_sync ==> stay@ == prs@ && final(dropped)@ == old(dropped)@,
        !first_sync ==> unlisted_rel(prs@, news@, q@, stay@)
            && final(dropped)@ == old(dropped)@ + left_behind(prs@, news@, q@),
{
    if first_sync {
        prs
    } else {
        let (stay, mut gone) = detach_unlisted(prs, news, q);
        dropped.append(&mut gone);
        stay
    }
}

/// Takes out of `away`, in order, the pull requests that come back (see
/// `returning`); the others stay there, in order.
fn take_returning(away: &mut Vec<PullRequest>, news: &[PullRequest], listed: &[PullRequest])
    -> (back: Vec<PullRequest>)
    ensures
        back@ == kept(old(away)@, returning(news@, listed@)),
        final(away)@ == kept(old(away)@, staying_away(news@, listed@)),
{
    let ghost all = away@;
    let mut back: Vec<PullRequest> = Vec::new();
    let mut keep: Vec<PullRequest> = Vec::new();
    while away.len() > 0
        invariant
            back@ + kept(away@, returning(news@, listed@)) == kept(all, returning(news@, listed@)),
            keep@ + kept(away@, staying_away(news@, listed@)) == kept(all, staying_away(news@, listed@)),
        decreases away.len(),
    {
        let ghost before = away@;
        let p = away.remove(0);
        assert(before.drop_first() =~= away@);
        if find_by_id(news, p.id.as_str()).is_some() && find_by_id(listed, p.id.as_str()).is_none() {
            assert(returning(news@, listed@)(p));
            back.push(p);
            assert(back@ + kept(away@, returning(news@, listed@)) =~= kept(all, returning(news@, listed@)));
        } else {
            assert(staying_away(news@, listed@)(p));
            keep.push(p);
            assert(keep@ + kept(away@, staying_away(news@, listed@)) =~= kept(all, staying_away(news@, listed@)));
        }
    }
    assert(kept(away@, returning(news@, listed@)) =~= Seq::<PullRequest>::empty());
    assert(kept(away@, staying_away(news@, listed@)) =~= Seq::<PullRequest>::empty());
    assert(back@ =~= kept(all, returning(news@, listed@)));
    assert(keep@ =~= kept(all, staying_away(news@, listed@)));
    *away = keep;
    back
}

/// Keeps, in order, the pull requests not in the archive `arch`.
fn retain_unarchived(v: &mut Vec<PullRequest>, arch: &[PullRequest])
    ensures
        final(v)@ == kept(old(v)@, not_archived(arch@)),
{
    let ghost all = v@;
    let mut out: Vec<PullRequest> = Vec::new();
    while v.len() > 0
        invariant
            out@ + kept(v@, not_archived(arch@)) == kept(all, not_archived(arch@)),
        decreases v.len(),
    {
        let ghost before = v@;
        let p = v.remove(0);
        assert(before.drop_first() =~= v@);
        if find_by_id(arch, p.id.as_str()).is_none() {
            assert(not_archived(arch@)(p));
            out.push(p);
            assert(out@ + kept(v@, not_archived(arch@)) =~= kept(all, not_archived(arch@)));
        } else {
            assert(!not_archived(arch@)(p));
        }
    }
    assert(kept(v@, not_archived(arch@)) =~= Seq::<PullRequest>::empty());
    assert(out@ =~= kept(all, not_archived(arch@)));
    *v = out;
}

/// Keeps, in order, the pull requests listed under some query.
pub(crate) fn retain_attributed(v: &mut Vec<PullRequest>)
    ensures
        final(v)@ == kept(old(v)@, attributed()),
{
    let ghost all = v@;
    let mut out: Vec<PullRequest> = Vec::new();
    while v.len() > 0
        invariant
            out@ + kept(v@, attributed()) == kept(all, attributed()),
        decreases v.len(),
    {
        let ghost before = v@;
        let p = v.remove(0);
        assert(before.drop_first() =~= v@);
        if p.matched_queries.len() > 0 {
            out.push(p);
            assert(out@ + kept(v@, attributed()) =~= kept(all, attributed()));
        }
    }
    assert(kept(v@, attributed()) =~= Seq::<PullRequest>::empty());
    assert(out@ =~= kept(all, attributed()));
    *v = out;
}

/// The queries of `qs` with `q` added at the end when it is not listed.
fn add_query(qs: &Vec<String>, q: &str) -> (r: Vec<String>)
    ensures
        attributed_to(r@, qs@, q@),
{
    let mut r = clone_strings(qs);
    if !list_has(qs, q) {
        r.push(String::from_str(q));
        assert(r@.drop_last() =~= qs@);
    }
    r
}

/// Whether the attention state was never evaluated (see `never_evaluated`).
fn is_never_evaluated(s: &AttentionState) -> (b: bool)
    ensures
        b == never_evaluated(s@),
{
    s.active_reasons.is_empty() && s.last_seen_at.is_none() && s.last_comment_at.is_none()
}

/// A poll changed the pull request: its update time, CI or review status,
/// or its comment or thread counts differ.
pub open spec fn spec_has_changed(old: PullRequest, new: PullRequest) -> bool {
    ||| old.updated_at@ != new.updated_at@
    ||| old.ci_status != new.ci_status
    ||| old.review_status != new.review_status
    ||| old.comment_count != new.comment_count
    ||| old.total_resolvable_count != new.total_resolvable_count
    ||| old.unresolved_count != new.unresolved_count
}

/// What one pull request polled by query `q` does to the list `cur`: a
/// known one (the first with its id) that changed is replaced by the polled
/// one, keeping its seen markers, with its attention re-evaluated against its
/// stored timeline (see `polled_attention`); an unknown one is appended with a
/// first evaluation; a known unchanged one keeps everything but gets its
/// attention evaluated if it never was. Each is listed under `q` from then on.
/// A change or an addition asks for a details fetch, and, when `notify`, sends
/// what the notifier gives.
pub open spec fn merge_step(
    cur: Seq<PullRequest>,
    new: PullRequest,
    q: Seq<char>,
    out: Seq<PullRequest>,
    timelines: Map<Seq<char>, Seq<TimelineEvent>>,
    user: Seq<char>,
    now: Timestamp,
    quiet: u64,
    disabled: Set<TriggerReason>,
    first_sync: bool,
    enabled: bool,
    h0: History,
    h1: History,
    notes: Seq<(Seq<char>, Seq<char>)>,
    fetch: bool,
) -> bool {
    if has_id(cur, new.id@) {
        let j = choose|j: int| first_with_id(cur, new.id@, j);
        let old = cur[j];
        if spec_has_changed(old, new) {
            &&& fetch
            &&& (if !first_sync && enabled {
                notes == spec_update_notes(old, new, h0) && h1 == h0.union(update_kinds(old, new))
            } else {
                notes == Seq::<(Seq<char>, Seq<char>)>::empty() && h1 == h0
            })
            &&& out.len() == cur.len()
            &&& forall|i: int| 0 <= i < cur.len() && i != j ==> #[trigger] out[i] == cur[i]
            &&& merged_pr(out[j], old, new, polled_attention(old, new, timelines, user, now, quiet, disabled))
            &&& attributed_to(out[j].matched_queries@, old.matched_queries@, q)
        } else {
            &&& !fetch
            &&& notes == Seq::<(Seq<char>, Seq<char>)>::empty()
            &&& h1 == h0
            &&& out.len() == cur.len()
            &&& forall|i: int| 0 <= i < cur.len() && i != j ==> #[trigger] out[i] == cur[i]
            &&& out[j] == (PullRequest {
                matched_queries: out[j].matched_queries,
                attention_state: out[j].attention_state,
                ..old
            })
            &&& attributed_to(out[j].matched_queries@, old.matched_queries@, q)
            &&& out[j].attention_state@ == (if never_evaluated(old.attention_state@) {
                polled_attention(old, new, timelines, user, now, quiet, disabled)
            } else {
                old.attention_state@
            })
        }
    } else {
        &&& fetch
        &&& (if !first_sync && enabled {
            notes == spec_new_pr_notes(new, h0) && h1 == h0.insert((new.id@, NotificationEvent::NewPr))
        } else {
            notes == Seq::<(Seq<char>, Seq<char>)>::empty() && h1 == h0
        })
        &&& out.len() == cur.len() + 1
        &&& out.take(cur.len() as int) == cur
        &&& merged_pr(out[cur.len() as int], new, new, spec_evaluate(None, None, new, Seq::empty(), user, now,
            quiet as i64 as int, disabled))
        &&& attributed_to(out[cur.len() as int].matched_queries@, new.matched_queries@, q)
    }
}

/// A poll that reports a known pull request (the first with its id) with
/// another update time, CI status, review status, comment count or count of
/// resolvable or unresolved threads replaces it by the polled values and asks
/// for a details fetch; one that reports none of these changed asks for no
/// fetch and keeps the stored values.
pub proof fn lemma_changed_pr_is_merged(
    cur: Seq<PullRequest>,
    new: PullRequest,
    q: Seq<char>,
    out: Seq<PullRequest>,
    timelines: Map<Seq<char>, Seq<TimelineEvent>>,
    user: Seq<char>,
    now: Timestamp,
    quiet: u64,
    disabled: Set<TriggerReason>,
    first_sync: bool,
    enabled: bool,
    h0: History,
    h1: History,
    notes: Seq<(Seq<char>, Seq<char>)>,
    fetch: bool,
    j: int,
)
    requires
        merge_step(cur, new, q, out, timelines, user, now, quiet, disabled, first_sync, enabled, h0, h1, notes, fetch),
        0 <= j < cur.len(),
        cur[j].id@ == new.id@,
        forall|k: int| 0 <= k < j ==> #[trigger] cur[k].id@ != new.id@,
    ensures
        out.len() == cur.len(),
        (cur[j].updated_at@ != new.updated_at@ || cur[j].ci_status != new.ci_status
            || cur[j].review_status != new.review_status || cur[j].comment_count != new.comment_count
            || cur[j].total_resolvable_count != new.total_resolvable_count
            || cur[j].unresolved_count != new.unresolved_count) ==> {
            &&& fetch
            &&& out[j].ci_status == new.ci_status
            &&& out[j].updated_at == new.updated_at
            &&& out[j].review_status == new.review_status
            &&& out[j].comment_count == new.comment_count
            &&& out[j].total_resolvable_count == new.total_resolvable_count
            &&& out[j].unresolved_count == new.unresolved_count
            &&& out[j].status == new.status
            &&& out[j].mergeable == new.mergeable
        },
        (cur[j].updated_at@ == new.updated_at@ && cur[j].ci_status == new.ci_status
            && cur[j].review_status == new.review_status && cur[j].comment_count == new.comment_count
            && cur[j].total_resolvable_count == new.total_resolvable_count
            && cur[j].unresolved_count == new.unresolved_count) ==> {
            &&& !fetch
            &&& out[j].ci_status == cur[j].ci_status
            &&& out[j].updated_at == cur[j].updated_at
            &&& out[j].status == cur[j].status
        },
        forall|k: int| 0 <= k < cur.len() && k != j ==> #[trigger] out[k] == cur[k],
{
    assert(has_id(cur, new.id@));
    assert(first_with_id(cur, new.id@, j));
    let jj = choose|jj: int| first_with_id(cur, new.id@, jj);
    if jj < j {
        assert(cur[jj].id@ != new.id@);
    } else if jj > j {
        assert(cur[j].id@ != new.id@);
    }
    assert(jj == j);
}

/// A poll that reports a pull request whose id is not listed appends it,
/// with the polled values and listed under the query, and asks for a details
/// fetch; the listed ones stay as they were.
pub proof fn lemma_new_pr_is_appended(
    cur: Seq<PullRequest>,
    new: PullRequest,
    q: Seq<char>,
    out: Seq<PullRequest>,
    timelines: Map<Seq<char>, Seq<TimelineEvent>>,
    user: Seq<char>,
    now: Timestamp,
    quiet: u64,
    disabled: Set<TriggerReason>,
    first_sync: bool,
    enabled: bool,
    h0: History,
    h1: History,
    notes: Seq<(Seq<char>, Seq<char>)>,
    fetch: bool,
)
    requires
        merge_step(cur, new, q, out, timelines, user, now, quiet, disabled, first_sync, enabled, h0, h1, notes, fetch),
        forall|k: int| 0 <= k < cur.len() ==> #[trigger] cur[k].id@ != new.id@,
    ensures
        fetch,
        out.len() == cur.len() + 1,
        forall|k: int| 0 <= k < cur.len() ==> #[trigger] out[k] == cur[k],
        out[cur.len() as int].id == new.id,
        out[cur.len() as int].ci_status == new.ci_status,
        out[cur.len() as int].updated_at == new.updated_at,
        spec_list_has(out[cur.len() as int].matched_queries@, q),
{
    assert(!has_id(cur, new.id@));
    assert forall|k: int| 0 <= k < cur.len() implies #[trigger] out[k] == cur[k] by {
        assert(out.take(cur.len() as int)[k] == out[k]);
    }
    let r = out[cur.len() as int].matched_queries@;
    if !spec_list_has(new.matched_queries@, q) {
        assert(r[r.len() - 1]@ == q);
    }
}

/// The notifications of the steps, one after the other.
pub open spec fn concat_notes(parts: Seq<Seq<(Seq<char>, Seq<char>)>>) -> Seq<(Seq<char>, Seq<char>)>
    decreases parts.len(),
{
    if parts.len() == 0 { Seq::empty() } else { concat_notes(parts.drop_last()) + parts.last() }
}

/// How many of the flags are set.
pub open spec fn count_set(flags: Seq<bool>) -> nat
    decreases flags.len(),
{
    if flags.len() == 0 { 0 } else { count_set(flags.drop_last()) + if flags.last() { 1nat } else { 0nat } }
}

/// The lists `states`, histories `hs`, notifications `parts` and fetch
/// flags `flags` are the successive steps of merging `news` into `states[0]`.
pub open spec fn merge_trace(
    news: Seq<PullRequest>,
    q: Seq<char>,
    states: Seq<Seq<PullRequest>>,
    hs: Seq<History>,
    parts: Seq<Seq<(Seq<char>, Seq<char>)>>,
    flags: Seq<bool>,
    timelines: Map<Seq<char>, Seq<TimelineEvent>>,
    user: Seq<char>,
    now: Timestamp,
    quiet: u64,
    disabled: Set<TriggerReason>,
    first_sync: bool,
    enabled: bool,
) -> bool {
    &&& states.len() == news.len() + 1
    &&& hs.len() == news.len() + 1
    &&& parts.len() == news.len()
    &&& flags.len() == news.len()
    &&& forall|i: int| 0 <= i < news.len() ==> merge_step(#[trigger] states[i], news[i], q, states[i + 1], timelines,
        user, now, quiet, disabled, first_sync, enabled, hs[i], hs[i + 1], parts[i], flags[i])
}

/// Merging the pull requests `news` polled by query `q` one after the other into `cur`
/// (each by `merge_step`) gives `out`, moves the notification history from
/// `h0` to `h1`, sends `notes` and asks for `fetches` details fetches.
pub open spec fn merge_all(
    cur: Seq<PullRequest>,
    news: Seq<PullRequest>,
    q: Seq<char>,
    out: Seq<PullRequest>,
    timelines: Map<Seq<char>, Seq<TimelineEvent>>,
    user: Seq<char>,
    now: Timestamp,
    quiet: u64,
    disabled: Set<TriggerReason>,
    first_sync: bool,
    enabled: bool,
    h0: History,
    h1: History,
    notes: Seq<(Seq<char>, Seq<char>)>,
    fetches: nat,
) -> bool {
    exists|states: Seq<Seq<PullRequest>>, hs: Seq<History>, parts: Seq<Seq<(Seq<char>, Seq<char>)>>,
        flags: Seq<bool>|
        #[trigger] merge_trace(news, q, states, hs, parts, flags, timelines, user, now, quiet, disabled, first_sync,
            enabled)
        && states[0] == cur
        && states.last() == out
        && hs[0] == h0
        && hs.last() == h1
        && notes == concat_notes(parts)
        && fetches == count_set(flags)
}

/// The fetched pull request with the seen markers of `old`, attention
/// `attn` and the queries `queries`.
fn with_seen(new_pr: &PullRequest, old: &PullRequest, attn: AttentionState, queries: Vec<String>) -> (r: PullRequest)
    ensures
        merged_pr(r, *old, *new_pr, attn@),
        r.matched_queries@ == queries@,
{
    let mut r = new_pr.duplicate();
    r.matched_queries = queries;
    r.last_seen_at = clone_opt_string(&old.last_seen_at);
    r.last_seen_unresolved_count = old.last_seen_unresolved_count;
    r.last_seen_total_resolvable_count = old.last_seen_total_resolvable_count;
    r.last_seen_conversational_count = old.last_seen_conversational_count;
    r.attention_state = attn;
    r
}

/// The first position of a pull request with the given id.
fn find_by_id(prs: &[PullRequest], id: &str) -> (r: Option<usize>)
    ensures
        r matches Some(j) ==> first_with_id(prs@, id@, j as int),
        r is None ==> !has_id(prs@, id@),
{
    let mut j: usize = 0;
    while j < prs.len()
        invariant
            j <= prs@.len(),
            forall|i: int| 0 <= i < j ==> #[trigger] prs@[i].id@ != id@,
        decreases prs.len() - j,
    {
        if str_eq(prs[j].id.as_str(), id) {
            return Some(j);
        }
        j = j + 1;
    }
    None
}

/// Whether a poll changed the pull request (see `spec_has_changed`).
pub fn has_changed(old: &PullRequest, new: &PullRequest) -> (b: bool)
    ensures
        b == spec_has_changed(*old, *new),
{
    !str_eq(old.updated_at.as_str(), new.updated_at.as_str())
        || old.ci_status != new.ci_status
        || old.review_status != new.review_status
        || old.comment_count != new.comment_count
        || old.total_resolvable_count != new.total_resolvable_count
        || old.unresolved_count != new.unresolved_count
}

/// Merges one polled pull request into `current` (see `merge_step`);
/// answers whether a details fetch is due, and the notifications to show.
fn merge_one(
    current: &mut Vec<PullRequest>,
    new_pr: &PullRequest,
    query: &str,
    timelines: &TimelineStore,
    user: &str,
    now: Timestamp,
    attn: &AttentionConfig,
    notifier: &mut NotificationDispatcher,
    first_sync: bool,
) -> (r: (bool, Vec<DesktopNotification>))
    requires
        quiet_period_in_range(attn.quiet_period_mins),
    ensures
        final(notifier).spec_enabled() == old(notifier).spec_enabled(),
        merge_step(old(current)@, *new_pr, query@, final(current)@, timelines@, user@, now,
            attn.quiet_period_mins, attn.disabled_reasons@, first_sync, old(notifier).spec_enabled(),
            old(notifier).spec_history(), final(notifier).spec_history(), note_views(r.1@), r.0),
{
    let ghost cur = current@;
    let ghost h0 = notifier.spec_history();
    match find_by_id(current, new_pr.id.as_str()) {
        Some(j) => {
            proof {
                let jj = choose|jj: int| first_with_id(cur, new_pr.id@, jj);
                if jj < j {
                    assert(cur[jj].id@ != new_pr.id@);
                } else if jj > j {
                    assert(cur[j as int].id@ != new_pr.id@);
                }
                assert(jj == j);
            }
            let tl_empty0: Vec<TimelineEvent> = Vec::new();
            let tl0: &[TimelineEvent] = match timelines.get(new_pr.id.as_str()) {
                Some(v) => v.as_slice(),
                None => tl_empty0.as_slice(),
            };
            assert(tl0@ == timeline_of(timelines@, new_pr.id@));
            let queries = add_query(&current[j].matched_queries, query);
            let fresh_state = is_never_evaluated(&current[j].attention_state);
            if !has_changed(&current[j], new_pr) {
                let mut entry = current.remove(j);
                entry.matched_queries = queries;
                if fresh_state {
                    entry.attention_state = evaluate(None, None, new_pr, tl0, user, now, attn);
                }
                let ghost ev = entry;
                current.insert(j, entry);
                assert(current@ =~= cur.update(j as int, ev));
                let notes: Vec<DesktopNotification> = Vec::new();
                assert(note_views(notes@) =~= Seq::<(Seq<char>, Seq<char>)>::empty());
                return (false, notes);
            }
            let notes = if !first_sync {
                notifier.notify_pr_update(&current[j], new_pr)
            } else {
                Vec::new()
            };
            proof {
                if first_sync || !old(notifier).spec_enabled() {
                    assert(note_views(notes@) =~= Seq::<(Seq<char>, Seq<char>)>::empty());
                }
            }
            let tl_empty: Vec<TimelineEvent> = Vec::new();
            let tl: &[TimelineEvent] = match timelines.get(new_pr.id.as_str()) {
                Some(v) => v.as_slice(),
                None => tl_empty.as_slice(),
            };
            assert(tl@ == timeline_of(timelines@, new_pr.id@));
            let new_attn = if fresh_state {
                evaluate(None, None, new_pr, tl, user, now, attn)
            } else {
                evaluate(Some(&current[j].attention_state), Some(&current[j]), new_pr, tl, user, now, attn)
            };
            let merged = with_seen(new_pr, &current[j], new_attn, queries);
            current.set(j, merged);
            (true, notes)
        },
        None => {
            let notes = if !first_sync {
                notifier.notify_new_pr(new_pr)
            } else {
                Vec::new()
            };
            proof {
                if first_sync || !old(notifier).spec_enabled() {
                    assert(note_views(notes@) =~= Seq::<(Seq<char>, Seq<char>)>::empty());
                }
            }
            let tl_empty: Vec<TimelineEvent> = Vec::new();
            let new_attn = evaluate(None, None, new_pr, tl_empty.as_slice(), user, now, attn);
            assert(tl_empty@ =~= Seq::<TimelineEvent>::empty());
            let queries = add_query(&new_pr.matched_queries, query);
            let fresh = with_seen(new_pr, new_pr, new_attn, queries);
            current.push(fresh);
            assert(current@.take(cur.len() as int) =~= cur);
            (true, notes)
        },
    }
}

/// The effects show these notifications, in order.
pub open spec fn shows(effects: Seq<Effect>, notes: Seq<(Seq<char>, Seq<char>)>) -> bool {
    &&& effects.len() == notes.len()
    &&& forall|i: int| 0 <= i < notes.len() ==> (#[trigger] effects[i] matches Effect::Notify(n)
        && (n.title@, n.body@) == notes[i])
}

/// Each of the effects fetches this target.
pub open spec fn all_fetch(effects: Seq<Effect>, target: (Seq<char>, u32)) -> bool {
    forall|i: int| 0 <= i < effects.len() ==> is_fetch(#[trigger] effects[i], target)
}

/// The effects showing the notifications, in order.
fn notify_effects(notes: &Vec<DesktopNotification>) -> (r: Vec<Effect>)
    ensures
        shows(r@, note_views(notes@)),
{
    let mut out: Vec<Effect> = Vec::new();
    let mut i: usize = 0;
    while i < notes.len()
        invariant
            i <= notes@.len(),
            shows(out@, note_views(notes@).take(i as int)),
        decreases notes.len() - i,
    {
        let n = DesktopNotification { title: notes[i].title.clone(), body: notes[i].body.clone() };
        let ghost before = out@;
        out.push(Effect::Notify(n));
        proof {
            let t = note_views(notes@).take(i + 1);
            assert forall|k: int| 0 <= k < t.len() implies (#[trigger] out@[k] matches Effect::Notify(m)
                && (m.title@, m.body@) == t[k]) by {
                if k < i {
                    assert(out@[k] == before[k]);
                }
            }
        }
        i = i + 1;
    }
    assert(note_views(notes@).take(notes@.len() as int) =~= note_views(notes@));
    out
}

/// The repository and number of the selected pull request, if any.
fn fetch_target(list: &PRList) -> (r: Option<(String, u32)>)
    ensures
        r matches Some(t) ==> spec_details_fetch(*list) == Some((t.0@, t.1)),
        r is None ==> spec_details_fetch(*list) is None,
{
    match list.selected_pr() {
        Some(p) => Some((p.repo.clone(), p.number)),
        None => None,
    }
}

/// What merging a detail fetch does: the first pull request fetched, where
/// one with its id is listed (the first such), replaces it in place, keeping
/// its seen markers, attention state and queries; an update notification is shown
/// after the first sync. Otherwise nothing changes.
pub open spec fn detail_merged(a0: App, a1: App, news: Seq<PullRequest>, effects: Seq<Effect>) -> bool {
    let prs = a0.pr_list.spec_prs();
    if news.len() > 0 && has_id(prs, news[0].id@) {
        let j = choose|j: int| first_with_id(prs, news[0].id@, j);
        let old = prs[j];
        let h0 = a0.notifier.spec_history();
        &&& a1.pr_list.spec_selected() == a0.pr_list.spec_selected()
        &&& a1.pr_list.spec_prs().len() == prs.len()
        &&& forall|i: int| 0 <= i < prs.len() && i != j ==> #[trigger] a1.pr_list.spec_prs()[i] == prs[i]
        &&& merged_pr(a1.pr_list.spec_prs()[j], old, news[0], old.attention_state@)
        &&& a1.pr_list.spec_prs()[j].matched_queries@ == old.matched_queries@
        &&& (if !a0.is_first_sync && a0.notifier.spec_enabled() {
            shows(effects, spec_update_notes(old, news[0], h0))
                && a1.notifier.spec_history() == h0.union(update_kinds(old, news[0]))
        } else {
            effects.len() == 0 && a1.notifier.spec_history() == h0
        })
        &&& a1.notifier.spec_enabled() == a0.notifier.spec_enabled()
        &&& a1 == (App { pr_list: a1.pr_list, notifier: a1.notifier, ..a0 })
    } else {
        a1 == a0 && effects.len() == 0
    }
}

/// What merging a poll by query `q` does: the archived pull requests (by id)
/// leave the list; the pull requests that left the list earlier and that the
/// poll lists again come back at its end; the polled ones that are not
/// archived are merged one after the other into a copy of that list (see
/// `merge_all`, with notifications after the first sync). After the first
/// sync, the pull requests listed under `q` that the poll did not list are
/// no longer listed under it, and those listed under no other query leave the
/// list and are kept aside (see `unlisted_rel`, `left_behind`). The list is
/// replaced by the result, sorted, and the finished pull requests are
/// unfollowed. The effects show the notifications, then fetch the details of
/// the pull request that was selected once per change or addition, then carry
/// out the unfollowing.
pub open spec fn poll_merged(a0: App, a1: App, news: Seq<PullRequest>, q: Seq<char>, now: Timestamp,
    effects: Seq<Effect>) -> bool {
    let arch = a0.archive_list.spec_prs();
    let listed = kept(a0.pr_list.spec_prs(), not_archived(arch));
    let polled = kept(news, not_archived(arch));
    let back = kept(a0.dropped_prs@, returning(polled, a0.pr_list.spec_prs()));
    let away = kept(a0.dropped_prs@, staying_away(polled, a0.pr_list.spec_prs()));
    exists|c0: Seq<PullRequest>, merged: Seq<PullRequest>, stay: Seq<PullRequest>, h1: History,
        notes: Seq<(Seq<char>, Seq<char>)>, fetches: nat, l1: PRList, l2: PRList, ue: Seq<Effect>|
        #![trigger merge_all(c0, kept(news, not_archived(arch)), q, merged, a0.pr_timelines@, a0.config.current_user@, now,
            a0.config.attention.quiet_period_mins, a0.config.attention.disabled_reasons@,
            a0.is_first_sync, a0.notifier.spec_enabled(), a0.notifier.spec_history(), h1, notes, fetches),
            replaced(a0.pr_list, stay, l1),
            sort_rel(l1, l2, a0.config.group_by, a0.sort_mode, a0.config.current_user@),
            unfollow_rel(l2, a0.archive_list, a1.pr_list, a1.archive_list, a0.is_writer,
                a0.config.unfollow_timeout_mins, now, ue)]
        {
            let n = notes.len() as int;
            let fc = if spec_details_fetch(a0.pr_list) is Some { fetches as int } else { 0 };
            &&& c0.len() == listed.len() + back.len()
            &&& copies_of(c0.take(listed.len() as int), listed)
            &&& c0.skip(listed.len() as int) == back
            &&& merge_all(c0, polled, q, merged, a0.pr_timelines@, a0.config.current_user@, now,
                a0.config.attention.quiet_period_mins, a0.config.attention.disabled_reasons@,
                a0.is_first_sync, a0.notifier.spec_enabled(), a0.notifier.spec_history(), h1, notes, fetches)
            &&& (if a0.is_first_sync {
                stay == merged && a1.dropped_prs@ == away
            } else {
                unlisted_rel(merged, polled, q, stay) && a1.dropped_prs@ == away + left_behind(merged, polled, q)
            })
            &&& replaced(a0.pr_list, stay, l1)
            &&& sort_rel(l1, l2, a0.config.group_by, a0.sort_mode, a0.config.current_user@)
            &&& unfollow_rel(l2, a0.archive_list, a1.pr_list, a1.archive_list, a0.is_writer,
                a0.config.unfollow_timeout_mins, now, ue)
            &&& a1.notifier.spec_history() == h1
            &&& a1.notifier.spec_enabled() == a0.notifier.spec_enabled()
            &&& a1 == (App {
                pr_list: a1.pr_list,
                archive_list: a1.archive_list,
                notifier: a1.notifier,
                dropped_prs: a1.dropped_prs,
                last_refresh: Some(now),
                ..a0
            })
            &&& effects.len() == n + fc + ue.len()
            &&& shows(effects.take(n), notes)
            &&& (spec_details_fetch(a0.pr_list) matches Some(t) ==> all_fetch(effects.subrange(n, n + fc), t))
            &&& effects.skip(n + fc) == ue
        }
}

impl App {
    /// Merges the details fetched for one pull request (see `detail_merged`).
    fn merge_detail(&mut self, new_prs: &Vec<PullRequest>) -> (effects: Vec<Effect>)
        ensures
            detail_merged(*old(self), *final(self), new_prs@, effects@),
    {
        if new_prs.len() == 0 {
            return Vec::new();
        }
        let new_pr = &new_prs[0];
        match find_by_id(self.pr_list.items(), new_pr.id.as_str()) {
            Some(j) => {
                let ghost prs = self.pr_list.spec_prs();
                proof {
                    let jj = choose|jj: int| first_with_id(prs, new_pr.id@, jj);
                    if jj < j {
                        assert(prs[jj].id@ != new_pr.id@);
                    } else if jj > j {
                        assert(prs[j as int].id@ != new_pr.id@);
                    }
                    assert(jj == j);
                }
                let notes = if !self.is_first_sync {
                    self.notifier.notify_pr_update(&self.pr_list.items()[j], new_pr)
                } else {
                    Vec::new()
                };
                let old_pr = &self.pr_list.items()[j];
                let replacement = with_seen(new_pr, old_pr, old_pr.attention_state.duplicate(),
                    clone_strings(&old_pr.matched_queries));
                let items = self.pr_list.items_mut();
                items.set(j, replacement);
                let effects = notify_effects(&notes);
                proof {
                    if self.is_first_sync || !self.notifier.spec_enabled() {
                        assert(note_views(notes@) =~= Seq::<(Seq<char>, Seq<char>)>::empty());
                    }
                }
                effects
            },
            None => Vec::new(),
        }
    }

    /// Merges the pull requests of a poll by `query` (see `poll_merged`), or,
    /// for a detail fetch, the details of one pull request (see `detail_merged`).
    #[verifier::rlimit(60)]
    #[verifier::spinoff_prover]
    pub fn merge_prs(&mut self, new_prs: Vec<PullRequest>, query: &str, is_detail: bool, now: Timestamp)
        -> (effects: Vec<Effect>)
        requires
            quiet_period_in_range(old(self).config.attention.quiet_period_mins),
            old(self).is_writer ==> timeout_in_range(old(self).config.unfollow_timeout_mins),
        ensures
            is_detail ==> detail_merged(*old(self), *final(self), new_prs@, effects@),
            !is_detail ==> poll_merged(*old(self), *final(self), new_prs@, query@, now, effects@),
    {
        if is_detail {
            return self.merge_detail(&new_prs);
        }
        self.last_refresh = Some(now);
        let target = fetch_target(&self.pr_list);
        let ghost arch = self.archive_list.spec_prs();
        let mut current = clone_prs(self.pr_list.items());
        proof {
            assert forall|x: PullRequest, y: PullRequest| #[trigger] x.spec_same(y)
                implies not_archived(arch)(x) == not_archived(arch)(y) by {}
            lemma_kept_copies(current@, self.pr_list.spec_prs(), not_archived(arch));
        }
        retain_unarchived(&mut current, self.archive_list.items());
        let mut new_prs = new_prs;
        retain_unarchived(&mut new_prs, self.archive_list.items());
        let ghost ca = current@;
        let mut back = take_returning(&mut self.dropped_prs, new_prs.as_slice(), self.pr_list.items());
        let ghost bv = back@;
        current.append(&mut back);
        proof {
            assert(current@.take(ca.len() as int) =~= ca);
            assert(current@.skip(ca.len() as int) =~= bv);
        }
        let ghost away = self.dropped_prs@;
        let ghost c0 = current@;
        let first_sync = self.is_first_sync;
        let ghost q = self.config.attention.quiet_period_mins;
        let ghost d = self.config.attention.disabled_reasons@;
        let ghost en = self.notifier.spec_enabled();
        let ghost h0 = self.notifier.spec_history();
        let mut notes: Vec<DesktopNotification> = Vec::new();
        let mut fetches: usize = 0;
        let mut i: usize = 0;
        let ghost mut states: Seq<Seq<PullRequest>> = seq![c0];
        let ghost mut hs: Seq<History> = seq![h0];
        let ghost mut parts: Seq<Seq<(Seq<char>, Seq<char>)>> = Seq::empty();
        let ghost mut flags: Seq<bool> = Seq::empty();
        proof {
            assert(new_prs@.take(0) =~= Seq::<PullRequest>::empty());
            assert(note_views(notes@) =~= Seq::<(Seq<char>, Seq<char>)>::empty());
        }
        while i < new_prs.len()
            invariant
                i <= new_prs@.len(),
                fetches <= i,
                quiet_period_in_range(self.config.attention.quiet_period_mins),
                *self == (App { notifier: self.notifier, last_refresh: Some(now), dropped_prs: self.dropped_prs,
                    ..*old(self) }),
                self.dropped_prs@ == away,
                self.notifier.spec_enabled() == en,
                first_sync == old(self).is_first_sync,
                q == old(self).config.attention.quiet_period_mins,
                d == old(self).config.attention.disabled_reasons@,
                en == old(self).notifier.spec_enabled(),
                h0 == old(self).notifier.spec_history(),
                merge_trace(new_prs@.take(i as int), query@, states, hs, parts, flags, old(self).pr_timelines@,
                    old(self).config.current_user@, now, q, d, first_sync, en),
                states[0] == c0,
                states.last() == current@,
                hs[0] == h0,
                hs.last() == self.notifier.spec_history(),
                note_views(notes@) == concat_notes(parts),
                fetches as nat == count_set(flags),
            decreases new_prs.len() - i,
        {
            let ghost cur_before = current@;
            let ghost h_before = self.notifier.spec_history();
            let ghost nm = note_views(notes@);
            let ghost fm = fetches as nat;
            let (f, mut ns) = merge_one(&mut current, &new_prs[i], query, &self.pr_timelines,
                self.config.current_user.as_str(), now, &self.config.attention, &mut self.notifier, first_sync);
            let ghost nl = note_views(ns@);
            notes.append(&mut ns);
            if f {
                fetches = fetches + 1;
            }
            proof {
                let news1 = new_prs@.take(i + 1);
                let states1 = states.push(current@);
                let hs1 = hs.push(self.notifier.spec_history());
                let parts1 = parts.push(nl);
                let flags1 = flags.push(f);
                assert(parts1.drop_last() =~= parts);
                assert(flags1.drop_last() =~= flags);
                assert(note_views(notes@) =~= nm + nl);
                assert forall|k: int| 0 <= k < news1.len() implies merge_step(#[trigger] states1[k], news1[k], query@,
                    states1[k + 1], old(self).pr_timelines@, old(self).config.current_user@, now, q, d, first_sync,
                    en, hs1[k], hs1[k + 1], parts1[k], flags1[k]) by {
                    if k < i {
                        assert(states1[k] == states[k] && states1[k + 1] == states[k + 1]);
                        assert(new_prs@.take(i as int)[k] == news1[k]);
                    } else {
                        assert(states1[k] == cur_before);
                        assert(news1[k] == new_prs@[i as int]);
                    }
                }
                states = states1;
                hs = hs1;
                parts = parts1;
                flags = flags1;
            }
            i = i + 1;
        }
        proof {
            assert(new_prs@.take(new_prs@.len() as int) =~= new_prs@);
        }
        let ghost merged = current@;
        let ghost notes_v = note_views(notes@);
        let ghost h1 = self.notifier.spec_history();
        let current = settle_unlisted(current, &mut self.dropped_prs, new_prs.as_slice(), query, first_sync);
        let ghost stay = current@;
        self.pr_list.set_prs(current);
        let ghost l1 = self.pr_list;
        self.sort_prs();
        let ghost l2 = self.pr_list;
        let mut ue = self.check_auto_unfollow(now);
        let ghost ue_v = ue@;
        let mut effects = notify_effects(&notes);
        let n = effects.len();
        let ghost fc: int = if target is Some { fetches as int } else { 0 };
        match &target {
            Some(t) => {
                let mut k: usize = 0;
                while k < fetches
                    invariant
                        k <= fetches,
                        effects@.len() == n + k,
                        shows(effects@.take(n as int), notes_v),
                        forall|m: int| n <= m < n + k ==> is_fetch(#[trigger] effects@[m], (t.0@, t.1)),
                    decreases fetches - k,
                {
                    let ghost before = effects@;
                    effects.push(Effect::FetchDetails(t.0.clone(), t.1));
                    proof {
                        assert(effects@.take(n as int) =~= before.take(n as int));
                        assert forall|m: int| n <= m < n + k + 1 implies is_fetch(#[trigger] effects@[m], (t.0@, t.1)) by {
                            if m < n + k {
                                assert(effects@[m] == before[m]);
                            }
                        }
                    }
                    k = k + 1;
                }
            },
            None => {},
        }
        let ghost mid = effects@;
        effects.append(&mut ue);
        proof {
            assert(effects@.take(n as int) =~= mid.take(n as int));
            assert(effects@.skip(n + fc) =~= ue_v);
            match target {
                Some(t) => {
                    assert forall|m: int| 0 <= m < fc implies is_fetch(#[trigger] effects@.subrange(n as int, n + fc)[m], (t.0@, t.1)) by {
                        assert(effects@.subrange(n as int, n + fc)[m] == mid[n + m]);
                    }
                },
                None => {},
            }
            assert(merge_trace(new_prs@, query@, states, hs, parts, flags, old(self).pr_timelines@,
                old(self).config.current_user@, now, q, d, first_sync, en));
            assert(merge_all(c0, new_prs@, query@, merged, old(self).pr_timelines@, old(self).config.current_user@, now,
                q, d, first_sync, en, h0, h1, notes_v, fetches as nat));
            assert(sort_rel(l1, l2, old(self).config.group_by, old(self).sort_mode, old(self).config.current_user@));
            assert(unfollow_rel(l2, old(self).archive_list, self.pr_list, self.archive_list, old(self).is_writer,
                old(self).config.unfollow_timeout_mins, now, ue_v));
            let listed = kept(old(self).pr_list.spec_prs(), not_archived(arch));
            assert(ca.len() == listed.len());
            assert(c0.take(listed.len() as int) == ca);
            assert(c0.skip(listed.len() as int) == bv);
            assert(replaced(old(self).pr_list, stay, l1));
            assert(self.dropped_prs@ == (if first_sync { away } else { away + left_behind(merged, new_prs@, query@) }));
            assert(first_sync ==> stay == merged);
            assert(!first_sync ==> unlisted_rel(merged, new_prs@, query@, stay));
            assert(*self == (App {
                pr_list: self.pr_list,
                archive_list: self.archive_list,
                notifier: self.notifier,
                dropped_prs: self.dropped_prs,
                last_refresh: Some(now),
                ..*old(self)
            }));
        }
        effects
    }
}

} // verus!
