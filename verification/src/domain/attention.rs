//! The attention model: which reasons make a pull request's dot red, how
//! they fire on polls, and which events clear them.
use vstd::prelude::*;
use crate::domain::time::{
    Timestamp, spec_parse_rfc3339, parse_rfc3339, spec_minutes_elapsed, span_nanos,
};
use crate::domain::pr::{
    PullRequest, TimelineEvent, PRStatus, CIStatus, ReviewStatus, MergeableStatus,
};
use crate::util::text::{str_eq, chars_of, vec_contains, seq_contains};
use crate::util::seqs::{lemma_push_contains, lemma_push_to_set, lemma_take_succ};

verus! {

/// Why a pull request needs the user's action.
#[derive(Debug, Clone, Copy, PartialEq, Eq, Hash, Structural)]
pub enum TriggerReason {
    ReviewRequested,
    ReReviewRequested,
    Mentioned,
    CommentReply,
    CiFailed,
    ChangesRequested,
    MergeConflict,
    Approved,
    NewComments,
}

impl TriggerReason {
    /// The text shown for the reason.
    pub open spec fn spec_label(self) -> Seq<char> {
        match self {
            TriggerReason::ReviewRequested => "Review requested"@,
            TriggerReason::ReReviewRequested => "Re-review requested"@,
            TriggerReason::Mentioned => "Mentioned in comment"@,
            TriggerReason::CommentReply => "Comment reply"@,
            TriggerReason::CiFailed => "CI failed"@,
            TriggerReason::ChangesRequested => "Changes requested"@,
            TriggerReason::MergeConflict => "Merge conflict"@,
            TriggerReason::Approved => "Approved — ready to merge"@,
            TriggerReason::NewComments => "New comments"@,
        }
    }

    /// The text shown for the reason, as `Display` writes it.
    pub fn label(&self) -> (r: &'static str)
        ensures
            r@ == self.spec_label(),
    {
        match self {
            TriggerReason::ReviewRequested => "Review requested",
            TriggerReason::ReReviewRequested => "Re-review requested",
            TriggerReason::Mentioned => "Mentioned in comment",
            TriggerReason::CommentReply => "Comment reply",
            TriggerReason::CiFailed => "CI failed",
            TriggerReason::ChangesRequested => "Changes requested",
            TriggerReason::MergeConflict => "Merge conflict",
            TriggerReason::Approved => "Approved — ready to merge",
            TriggerReason::NewComments => "New comments",
        }
    }
}

/// The color of a pull request's attention dot.
#[derive(Debug, Clone, Copy, PartialEq, Eq, Structural)]
pub enum DotColor {
    Red,
    Blue,
}

/// A set of trigger reasons, each held at most once.
#[derive(Debug)]
pub struct ReasonSet {
    items: Vec<TriggerReason>,
}

impl View for ReasonSet {
    type V = Set<TriggerReason>;

    open spec fn view(&self) -> Set<TriggerReason> {
        self.spec_items().to_set()
    }
}

impl ReasonSet {
    /// The reasons in the order they are held.
    pub closed spec fn spec_items(&self) -> Seq<TriggerReason> {
        self.items@
    }

    #[verifier::type_invariant]
    closed spec fn inv(self) -> bool {
        self.items@.no_duplicates()
    }

    /// The held reasons, in the order they are held, with no repeats.
    pub fn to_vec(&self) -> (r: Vec<TriggerReason>)
        ensures
            r@.to_set() == self@,
            r@.no_duplicates(),
    {
        proof { use_type_invariant(self); }
        let mut out: Vec<TriggerReason> = Vec::new();
        let mut i: usize = 0;
        while i < self.items.len()
            invariant
                i <= self.items.len(),
                out@ == self.items@.take(i as int),
            decreases self.items.len() - i,
        {
            out.push(self.items[i]);
            assert(self.items@.take(i as int).push(self.items@[i as int]) =~= self.items@.take(i + 1));
            i = i + 1;
        }
        assert(self.items@.take(self.items.len() as int) =~= self.items@);
        out
    }

    /// The empty set.
    pub fn new() -> (r: ReasonSet)
        ensures
            r@ == Set::<TriggerReason>::empty(),
    {
        let r = ReasonSet { items: Vec::new() };
        assert(r@ =~= Set::<TriggerReason>::empty());
        r
    }

    /// The set of the reasons in a slice (repeats collapse).
    pub fn from_slice(rs: &[TriggerReason]) -> (r: ReasonSet)
        ensures
            r@ == rs@.to_set(),
    {
        let mut s = ReasonSet::new();
        let mut i: usize = 0;
        while i < rs.len()
            invariant
                i <= rs.len(),
                s@ == rs@.take(i as int).to_set(),
            decreases rs.len() - i,
        {
            s.insert(rs[i]);
            proof {
                lemma_take_succ(rs@, i as int);
                lemma_push_to_set(rs@.take(i as int), rs@[i as int]);
            }
            i = i + 1;
        }
        assert(rs@.take(rs.len() as int) =~= rs@);
        s
    }

    /// A copy of the set.
    pub fn duplicate(&self) -> (r: ReasonSet)
        ensures
            r@ == self@,
    {
        let v = self.to_vec();
        ReasonSet::from_slice(v.as_slice())
    }

    /// The reason is held.
    pub fn contains(&self, r: &TriggerReason) -> (b: bool)
        ensures
            b == self@.contains(*r),
    {
        let mut i: usize = 0;
        while i < self.items.len()
            invariant
                i <= self.items.len(),
                forall|j: int| 0 <= j < i ==> self.items@[j] != *r,
            decreases self.items.len() - i,
        {
            if self.items[i] == *r {
                assert(self.items@.contains(*r));
                return true;
            }
            i = i + 1;
        }
        false
    }

    /// Adds a reason; true when it was not held before.
    pub fn insert(&mut self, r: TriggerReason) -> (added: bool)
        ensures
            final(self)@ == old(self)@.insert(r),
            added == !old(self)@.contains(r),
    {
        if self.contains(&r) {
            assert(self@.insert(r) =~= self@);
            return false;
        }
        proof { use_type_invariant(&*self); }
        let mut items: Vec<TriggerReason> = Vec::new();
        std::mem::swap(&mut items, &mut self.items);
        let ghost before = items@;
        items.push(r);
        assert(items@.no_duplicates()) by {
            assert forall|a: int, b: int| 0 <= a < items@.len() && 0 <= b < items@.len() && a != b
                implies items@[a] != items@[b] by {
                if a < before.len() && b < before.len() {
                } else if a == before.len() {
                    assert(!before.contains(r));
                    assert(items@[b] == before[b]);
                } else {
                    assert(!before.contains(r));
                    assert(items@[a] == before[a]);
                }
            }
        }
        self.items = items;
        assert(self@ =~= old(self)@.insert(r)) by {
            assert forall|x: TriggerReason| self@.contains(x) <==> old(self)@.insert(r).contains(x) by {
                if before.contains(x) {
                    let k = choose|k: int| 0 <= k < before.len() && before[k] == x;
                    assert(self.items@[k] == x);
                }
                if x == r {
                    assert(self.items@[before.len() as int] == r);
                }
                if self.items@.contains(x) && x != r {
                    let k = choose|k: int| 0 <= k < self.items@.len() && self.items@[k] == x;
                    assert(before[k] == x);
                }
            }
        }
        true
    }

    /// Removes a reason; true when it was held.
    pub fn remove(&mut self, r: &TriggerReason) -> (removed: bool)
        ensures
            final(self)@ == old(self)@.remove(*r),
            removed == old(self)@.contains(*r),
    {
        proof { use_type_invariant(&*self); }
        let mut old_items: Vec<TriggerReason> = Vec::new();
        std::mem::swap(&mut old_items, &mut self.items);
        let mut kept: Vec<TriggerReason> = Vec::new();
        let mut found = false;
        let mut i: usize = 0;
        while i < old_items.len()
            invariant
                i <= old_items.len(),
                old_items@ == old(self).spec_items(),
                old_items@.no_duplicates(),
                kept@.no_duplicates(),
                forall|x: TriggerReason| kept@.contains(x)
                    <==> (old_items@.take(i as int).contains(x) && x != *r),
                found == old_items@.take(i as int).contains(*r),
            decreases old_items.len() - i,
        {
            let x = old_items[i];
            proof {
                lemma_take_succ(old_items@, i as int);
                lemma_push_contains(old_items@.take(i as int), x, *r);
            }
            if x == *r {
                found = true;
            } else {
                let ghost before = kept@;
                assert(!before.contains(x)) by {
                    if before.contains(x) {
                        let k = choose|k: int| 0 <= k < i && old_items@[k] == x;
                        assert(old_items@.take(i as int)[k] == x);
                    }
                }
                kept.push(x);
                assert(kept@.no_duplicates()) by {
                    assert forall|a: int, b: int| 0 <= a < kept@.len() && 0 <= b < kept@.len() && a != b
                        implies kept@[a] != kept@[b] by {
                        if a == before.len() {
                            assert(kept@[b] == before[b]);
                        } else if b == before.len() {
                            assert(kept@[a] == before[a]);
                        }
                    }
                }
                assert forall|y: TriggerReason| kept@.contains(y)
                    <==> (old_items@.take(i + 1).contains(y) && y != *r) by {
                    lemma_push_contains(before, x, y);
                    lemma_push_contains(old_items@.take(i as int), x, y);
                    if kept@.contains(y) && y != x {
                        let k = choose|k: int| 0 <= k < kept@.len() && kept@[k] == y;
                        assert(before[k] == y);
                    }
                    if y == x {
                        assert(kept@[before.len() as int] == x);
                    }
                    if before.contains(y) {
                        let k = choose|k: int| 0 <= k < before.len() && before[k] == y;
                        assert(kept@[k] == y);
                    }
                    if old_items@.take(i + 1).contains(y) && y != x {
                        let t = old_items@.take(i + 1);
                        let k = choose|k: int| 0 <= k < t.len() && t[k] == y;
                        assert(old_items@.take(i as int)[k] == y);
                    }
                }
            }
            i = i + 1;
        }
        assert(old_items@.take(old_items.len() as int) =~= old_items@);
        self.items = kept;
        assert(self@ =~= old(self)@.remove(*r));
        found
    }

    /// Removes every reason.
    pub fn clear(&mut self)
        ensures
            final(self)@ == Set::<TriggerReason>::empty(),
    {
        self.items = Vec::new();
        assert(self@ =~= Set::<TriggerReason>::empty());
    }

    /// No reason is held.
    pub fn is_empty(&self) -> (b: bool)
        ensures
            b == (self@ == Set::<TriggerReason>::empty()),
    {
        let b = self.items.len() == 0;
        if !b {
            assert(self@.contains(self.items@[0]));
        } else {
            assert(self@ =~= Set::<TriggerReason>::empty());
        }
        b
    }

    /// The number of reasons held.
    pub fn len(&self) -> (n: usize)
        ensures
            n == self@.len(),
            self@.finite(),
    {
        proof {
            use_type_invariant(self);
            self.items@.unique_seq_to_set();
            vstd::seq_lib::seq_to_set_is_finite(self.items@);
        }
        self.items.len()
    }
}

/// What attention rules are on and how long discussions must be quiet.
#[derive(Debug)]
pub struct AttentionConfig {
    pub quiet_period_mins: u64,
    pub disabled_reasons: ReasonSet,
    pub open_in_browser_marks_seen: bool,
}

impl AttentionConfig {
    /// The defaults: a 15 minute quiet period, every rule on, and opening in
    /// the browser leaves the seen state alone.
    pub fn default() -> (r: AttentionConfig)
        ensures
            r.quiet_period_mins == 15,
            r.disabled_reasons@ == Set::<TriggerReason>::empty(),
            !r.open_in_browser_marks_seen,
    {
        AttentionConfig {
            quiet_period_mins: 15,
            disabled_reasons: ReasonSet::new(),
            open_in_browser_marks_seen: false,
        }
    }

    /// A copy of the configuration.
    pub fn duplicate(&self) -> (r: AttentionConfig)
        ensures
            r.quiet_period_mins == self.quiet_period_mins,
            r.disabled_reasons@ == self.disabled_reasons@,
            r.open_in_browser_marks_seen == self.open_in_browser_marks_seen,
    {
        AttentionConfig {
            quiet_period_mins: self.quiet_period_mins,
            disabled_reasons: self.disabled_reasons.duplicate(),
            open_in_browser_marks_seen: self.open_in_browser_marks_seen,
        }
    }
}

/// The attention state of one pull request: the active reasons, when the
/// user last marked it seen, and the time of the latest comment known.
#[derive(Debug)]
pub struct AttentionState {
    pub active_reasons: ReasonSet,
    pub last_seen_at: Option<Timestamp>,
    pub last_comment_at: Option<Timestamp>,
}

/// The mathematical value of an attention state.
pub struct AttentionStateView {
    pub active: Set<TriggerReason>,
    pub last_seen_at: Option<Timestamp>,
    pub last_comment_at: Option<Timestamp>,
}

impl View for AttentionState {
    type V = AttentionStateView;

    open spec fn view(&self) -> AttentionStateView {
        AttentionStateView {
            active: self.active_reasons@,
            last_seen_at: self.last_seen_at,
            last_comment_at: self.last_comment_at,
        }
    }
}

/// The state of a pull request that has never been evaluated.
pub open spec fn initial_state_view() -> AttentionStateView {
    AttentionStateView { active: Set::empty(), last_seen_at: None, last_comment_at: None }
}

/// What `AttentionState::is_blue` answers for a state and an `updated_at` text.
pub open spec fn spec_is_blue(s: AttentionStateView, updated_at: Seq<char>) -> bool {
    s.active == Set::<TriggerReason>::empty() && match s.last_seen_at {
        None => true,
        Some(seen) => match spec_parse_rfc3339(updated_at) {
            Some(ts) => seen.spec_before(ts),
            None => false,
        },
    }
}

/// The dot a state shows for a pull request last updated at `updated_at`.
pub open spec fn spec_dot_color(s: AttentionStateView, updated_at: Seq<char>) -> Option<DotColor> {
    if s.active != Set::<TriggerReason>::empty() {
        Some(DotColor::Red)
    } else if spec_is_blue(s, updated_at) {
        Some(DotColor::Blue)
    } else {
        None
    }
}

/// Parses an RFC 3339 text into a UTC instant (`None` where chrono refuses it).
pub fn parse_ts(s: &str) -> (r: Option<Timestamp>)
    ensures
        r == spec_parse_rfc3339(s@),
        r matches Some(t) ==> t.wf(),
{
    parse_rfc3339(s)
}

impl AttentionState {
    /// The state of a pull request never evaluated: nothing active, never seen.
    pub fn default() -> (r: AttentionState)
        ensures
            r@ == initial_state_view(),
    {
        AttentionState { active_reasons: ReasonSet::new(), last_seen_at: None, last_comment_at: None }
    }

    /// A copy of the state.
    pub fn duplicate(&self) -> (r: AttentionState)
        ensures
            r@ == self@,
    {
        AttentionState {
            active_reasons: self.active_reasons.duplicate(),
            last_seen_at: self.last_seen_at,
            last_comment_at: self.last_comment_at,
        }
    }

    /// Some reason is active.
    pub fn is_red(&self) -> (b: bool)
        ensures
            b == (self@.active != Set::<TriggerReason>::empty()),
    {
        !self.active_reasons.is_empty()
    }

    /// No reason is active, and the pull request was never seen or was
    /// updated after it was last seen.
    pub fn is_blue(&self, pr_updated_at: &str) -> (b: bool)
        ensures
            b == spec_is_blue(self@, pr_updated_at@),
    {
        if self.is_red() {
            return false;
        }
        match self.last_seen_at {
            None => true,
            Some(seen_at) => match parse_ts(pr_updated_at) {
                Some(ts) => seen_at.before(&ts),
                None => false,
            },
        }
    }

    /// Red while some reason is active, else blue when unseen news exist, else none.
    pub fn dot_color(&self, pr_updated_at: &str) -> (c: Option<DotColor>)
        ensures
            c == spec_dot_color(self@, pr_updated_at@),
    {
        if self.is_red() {
            Some(DotColor::Red)
        } else if self.is_blue(pr_updated_at) {
            Some(DotColor::Blue)
        } else {
            None
        }
    }

    /// Marks the pull request seen at `now`: every reason is cleared.
    pub fn mark_seen(&mut self, now: Timestamp)
        ensures
            final(self)@.active == Set::<TriggerReason>::empty(),
            final(self)@.last_seen_at == Some(now),
            final(self)@.last_comment_at == old(self)@.last_comment_at,
    {
        self.active_reasons.clear();
        self.last_seen_at = Some(now);
    }

    /// Removes the given reasons and keeps the others.
    pub fn remove_reasons(&mut self, reasons: &[TriggerReason])
        ensures
            final(self)@.active == old(self)@.active.difference(reasons@.to_set()),
            final(self)@.last_seen_at == old(self)@.last_seen_at,
            final(self)@.last_comment_at == old(self)@.last_comment_at,
    {
        let mut i: usize = 0;
        while i < reasons.len()
            invariant
                i <= reasons.len(),
                self@.active == old(self)@.active.difference(reasons@.take(i as int).to_set()),
                self@.last_seen_at == old(self)@.last_seen_at,
                self@.last_comment_at == old(self)@.last_comment_at,
            decreases reasons.len() - i,
        {
            self.active_reasons.remove(&reasons[i]);
            proof {
                lemma_take_succ(reasons@, i as int);
                lemma_push_to_set(reasons@.take(i as int), reasons@[i as int]);
            }
            assert(self@.active =~= old(self)@.active.difference(reasons@.take(i + 1).to_set()));
            i = i + 1;
        }
        assert(reasons@.take(reasons.len() as int) =~= reasons@);
    }
}

/// Marks the state seen at `now`: every reason is cleared.
pub fn apply_mark_seen(state: &mut AttentionState, now: Timestamp)
    ensures
        final(state)@.active == Set::<TriggerReason>::empty(),
        final(state)@.last_seen_at == Some(now),
        final(state)@.last_comment_at == old(state)@.last_comment_at,
{
    state.active_reasons.clear();
    state.last_seen_at = Some(now);
}

/// Archiving has the effect of marking seen at `now`: every reason is
/// cleared.
pub fn apply_archive(state: &mut AttentionState, now: Timestamp)
    ensures
        final(state)@.active == Set::<TriggerReason>::empty(),
        final(state)@.last_seen_at == Some(now),
        final(state)@.last_comment_at == old(state)@.last_comment_at,
{
    apply_mark_seen(state, now);
}

/// The user's own activity on the pull request counts as marking it seen.
pub fn apply_user_activity(state: &mut AttentionState, now: Timestamp)
    ensures
        final(state)@.active == Set::<TriggerReason>::empty(),
        final(state)@.last_seen_at == Some(now),
        final(state)@.last_comment_at == old(state)@.last_comment_at,
{
    apply_mark_seen(state, now);
}


// ---------------------------------------------------------------------
// Reading the timeline
// ---------------------------------------------------------------------

/// A comment on the pull request: a top-level comment or a submitted review.
pub open spec fn spec_is_comment(e: TimelineEvent) -> bool {
    e.event_type@ == "IssueComment"@ || e.event_type@ == "PullRequestReview"@
}

/// A submitted review.
pub open spec fn spec_is_review(e: TimelineEvent) -> bool {
    e.event_type@ == "PullRequestReview"@
}

/// The instant an event was created at, where its text parses.
pub open spec fn spec_event_ts(e: TimelineEvent) -> Option<Timestamp> {
    spec_parse_rfc3339(e.created_at@)
}

/// The event happened after `baseline` (every event does when there is none;
/// an event whose time does not parse never does otherwise).
pub open spec fn spec_is_newer_than(e: TimelineEvent, baseline: Option<Timestamp>) -> bool {
    match baseline {
        None => true,
        Some(t) => match spec_event_ts(e) {
            Some(ts) => t.spec_before(ts),
            None => false,
        },
    }
}

/// The later of two optional instants (the second one on a tie).
pub open spec fn spec_max_ts(a: Option<Timestamp>, b: Option<Timestamp>) -> Option<Timestamp> {
    match (a, b) {
        (None, y) => y,
        (x, None) => x,
        (Some(p), Some(q)) => Some(p.spec_later(q)),
    }
}

/// The latest parseable time among the comments of a timeline.
pub open spec fn spec_latest_comment_ts(tl: Seq<TimelineEvent>) -> Option<Timestamp>
    decreases tl.len(),
{
    if tl.len() == 0 {
        None
    } else {
        let rest = spec_latest_comment_ts(tl.drop_last());
        if spec_is_comment(tl.last()) {
            spec_max_ts(rest, spec_event_ts(tl.last()))
        } else {
            rest
        }
    }
}

/// The latest parseable time among the comments newer than `baseline`.
pub open spec fn spec_latest_new_comment_ts(tl: Seq<TimelineEvent>, baseline: Option<Timestamp>) -> Option<Timestamp>
    decreases tl.len(),
{
    if tl.len() == 0 {
        None
    } else {
        let rest = spec_latest_new_comment_ts(tl.drop_last(), baseline);
        if spec_is_comment(tl.last()) && spec_is_newer_than(tl.last(), baseline) {
            spec_max_ts(rest, spec_event_ts(tl.last()))
        } else {
            rest
        }
    }
}

/// The kinds of timeline questions that the rules ask.
#[derive(Clone, Copy, PartialEq, Eq, Structural)]
pub enum EventQuery {
    /// The user commented after the baseline.
    UserNewComment,
    /// The user posted a top-level comment after the baseline.
    UserNewTopComment,
    /// The user submitted a review after the baseline.
    UserNewReview,
    /// Any comment.
    AnyComment,
    /// The user submitted a review at some time.
    UserReview,
    /// The user's review was requested (again), after the baseline unless
    /// this is the first evaluation.
    ReRequest,
    /// Someone else mentioned `@user` in a comment after the baseline.
    Mention,
    /// The user commented at some time.
    UserComment,
    /// Someone else commented, after the baseline unless this is the first
    /// evaluation.
    OtherNewComment,
}

/// The answer of a query for one event.
pub open spec fn spec_event_matches(
    q: EventQuery,
    e: TimelineEvent,
    user: Seq<char>,
    baseline: Option<Timestamp>,
    is_first: bool,
) -> bool {
    match q {
        EventQuery::UserNewComment => spec_is_comment(e) && e.actor@ == user
            && spec_is_newer_than(e, baseline),
        EventQuery::UserNewTopComment => e.event_type@ == "IssueComment"@ && e.actor@ == user
            && spec_is_newer_than(e, baseline),
        EventQuery::UserNewReview => spec_is_review(e) && e.actor@ == user
            && spec_is_newer_than(e, baseline),
        EventQuery::AnyComment => spec_is_comment(e),
        EventQuery::UserReview => spec_is_review(e) && e.actor@ == user,
        EventQuery::ReRequest => e.event_type@ == "ReviewRequestedEvent"@
            && (e.reviewer_login matches Some(l) && l@ == user)
            && (is_first || spec_is_newer_than(e, baseline)),
        EventQuery::Mention => spec_is_comment(e) && e.actor@ != user
            && (e.content matches Some(c) && seq_contains(c@, seq!['@'] + user))
            && spec_is_newer_than(e, baseline),
        EventQuery::UserComment => spec_is_comment(e) && e.actor@ == user,
        EventQuery::OtherNewComment => spec_is_comment(e) && e.actor@ != user
            && (is_first || spec_is_newer_than(e, baseline)),
    }
}

/// Some event of the timeline answers the query.
pub open spec fn spec_any_event(
    q: EventQuery,
    tl: Seq<TimelineEvent>,
    user: Seq<char>,
    baseline: Option<Timestamp>,
    is_first: bool,
) -> bool {
    exists|i: int| 0 <= i < tl.len() && #[trigger] spec_event_matches(q, tl[i], user, baseline, is_first)
}

/// A comment or a submitted review.
pub fn is_comment_event(e: &TimelineEvent) -> (b: bool)
    ensures
        b == spec_is_comment(*e),
{
    str_eq(e.event_type.as_str(), "IssueComment") || str_eq(e.event_type.as_str(), "PullRequestReview")
}

/// The event happened after `baseline`.
pub fn is_newer_than(e: &TimelineEvent, baseline: Option<Timestamp>) -> (b: bool)
    ensures
        b == spec_is_newer_than(*e, baseline),
{
    match baseline {
        None => true,
        Some(t) => match parse_ts(e.created_at.as_str()) {
            Some(ts) => t.before(&ts),
            None => false,
        },
    }
}

fn max_ts(a: Option<Timestamp>, b: Option<Timestamp>) -> (r: Option<Timestamp>)
    ensures
        r == spec_max_ts(a, b),
{
    match (a, b) {
        (None, y) => y,
        (x, None) => x,
        (Some(p), Some(q)) => if q.before(&p) { Some(p) } else { Some(q) },
    }
}

/// The latest parseable time among the comments of the timeline.
pub fn latest_comment_at(timeline: &[TimelineEvent]) -> (r: Option<Timestamp>)
    ensures
        r == spec_latest_comment_ts(timeline@),
{
    let mut latest: Option<Timestamp> = None;
    let mut i: usize = 0;
    while i < timeline.len()
        invariant
            i <= timeline.len(),
            latest == spec_latest_comment_ts(timeline@.take(i as int)),
        decreases timeline.len() - i,
    {
        let e = &timeline[i];
        assert(timeline@.take(i + 1).drop_last() =~= timeline@.take(i as int));
        if is_comment_event(e) {
            let ts = parse_ts(e.created_at.as_str());
            latest = max_ts(latest, ts);
        }
        i = i + 1;
    }
    assert(timeline@.take(timeline.len() as int) =~= timeline@);
    latest
}

/// The latest parseable time among the comments newer than `baseline`.
pub fn latest_new_comment_at(timeline: &[TimelineEvent], baseline: Option<Timestamp>) -> (r: Option<Timestamp>)
    ensures
        r == spec_latest_new_comment_ts(timeline@, baseline),
{
    let mut latest: Option<Timestamp> = None;
    let mut i: usize = 0;
    while i < timeline.len()
        invariant
            i <= timeline.len(),
            latest == spec_latest_new_comment_ts(timeline@.take(i as int), baseline),
        decreases timeline.len() - i,
    {
        let e = &timeline[i];
        assert(timeline@.take(i + 1).drop_last() =~= timeline@.take(i as int));
        if is_comment_event(e) && is_newer_than(e, baseline) {
            let ts = parse_ts(e.created_at.as_str());
            latest = max_ts(latest, ts);
        }
        i = i + 1;
    }
    assert(timeline@.take(timeline.len() as int) =~= timeline@);
    latest
}

fn opt_str_eq(o: &Option<String>, user: &str) -> (b: bool)
    ensures
        b == (o matches Some(l) && l@ == user@),
{
    match o {
        Some(l) => str_eq(l.as_str(), user),
        None => false,
    }
}

/// Answers a query for one event; `pattern` holds `@user`.
fn event_matches(
    q: EventQuery,
    e: &TimelineEvent,
    user: &str,
    pattern: &Vec<char>,
    baseline: Option<Timestamp>,
    is_first: bool,
) -> (b: bool)
    requires
        pattern@ == seq!['@'] + user@,
    ensures
        b == spec_event_matches(q, *e, user@, baseline, is_first),
{
    match q {
        EventQuery::UserNewComment => is_comment_event(e) && str_eq(e.actor.as_str(), user)
            && is_newer_than(e, baseline),
        EventQuery::UserNewTopComment => str_eq(e.event_type.as_str(), "IssueComment")
            && str_eq(e.actor.as_str(), user) && is_newer_than(e, baseline),
        EventQuery::UserNewReview => str_eq(e.event_type.as_str(), "PullRequestReview")
            && str_eq(e.actor.as_str(), user) && is_newer_than(e, baseline),
        EventQuery::AnyComment => is_comment_event(e),
        EventQuery::UserReview => str_eq(e.event_type.as_str(), "PullRequestReview")
            && str_eq(e.actor.as_str(), user),
        EventQuery::ReRequest => str_eq(e.event_type.as_str(), "ReviewRequestedEvent")
            && opt_str_eq(&e.reviewer_login, user)
            && (is_first || is_newer_than(e, baseline)),
        EventQuery::Mention => {
            is_comment_event(e) && !str_eq(e.actor.as_str(), user) && match &e.content {
                Some(c) => {
                    let cs = chars_of(c.as_str());
                    vec_contains(&cs, pattern)
                },
                None => false,
            } && is_newer_than(e, baseline)
        },
        EventQuery::UserComment => is_comment_event(e) && str_eq(e.actor.as_str(), user),
        EventQuery::OtherNewComment => is_comment_event(e) && !str_eq(e.actor.as_str(), user)
            && (is_first || is_newer_than(e, baseline)),
    }
}

/// The pattern `@user` searched for in comment bodies.
fn mention_pattern(user: &str) -> (p: Vec<char>)
    ensures
        p@ == seq!['@'] + user@,
{
    let mut p: Vec<char> = Vec::new();
    p.push('@');
    let u = chars_of(user);
    let mut i: usize = 0;
    while i < u.len()
        invariant
            i <= u.len(),
            u@ == user@,
            p@ == seq!['@'] + u@.take(i as int),
        decreases u.len() - i,
    {
        p.push(u[i]);
        assert(seq!['@'] + u@.take(i + 1) =~= (seq!['@'] + u@.take(i as int)).push(u@[i as int]));
        i = i + 1;
    }
    assert(u@.take(u.len() as int) =~= u@);
    p
}

/// Some event of the timeline answers the query.
fn any_event(
    q: EventQuery,
    timeline: &[TimelineEvent],
    user: &str,
    pattern: &Vec<char>,
    baseline: Option<Timestamp>,
    is_first: bool,
) -> (b: bool)
    requires
        pattern@ == seq!['@'] + user@,
    ensures
        b == spec_any_event(q, timeline@, user@, baseline, is_first),
{
    let mut i: usize = 0;
    while i < timeline.len()
        invariant
            i <= timeline.len(),
            pattern@ == seq!['@'] + user@,
            forall|j: int| 0 <= j < i ==> !#[trigger] spec_event_matches(q, timeline@[j], user@, baseline, is_first),
        decreases timeline.len() - i,
    {
        if event_matches(q, &timeline[i], user, pattern, baseline, is_first) {
            return true;
        }
        i = i + 1;
    }
    false
}

/// The later of the known latest comment time and the latest comment of
/// the timeline.
pub open spec fn spec_updated_last_comment(old: Option<Timestamp>, tl: Seq<TimelineEvent>) -> Option<Timestamp> {
    match spec_latest_comment_ts(tl) {
        Some(latest) => match old {
            None => Some(latest),
            Some(o) => if o.spec_before(latest) { Some(latest) } else { old },
        },
        None => old,
    }
}

/// Moves `last_comment_at` forward to the latest comment of the timeline.
pub fn update_last_comment_at(state: &mut AttentionState, timeline: &[TimelineEvent])
    ensures
        final(state)@.active == old(state)@.active,
        final(state)@.last_seen_at == old(state)@.last_seen_at,
        final(state)@.last_comment_at == spec_updated_last_comment(old(state)@.last_comment_at, timeline@),
{
    if let Some(latest) = latest_comment_at(timeline) {
        let newer = match state.last_comment_at {
            None => true,
            Some(old_ts) => old_ts.before(&latest),
        };
        if newer {
            state.last_comment_at = Some(latest);
        }
    }
}

// ---------------------------------------------------------------------
// Reading the pull request
// ---------------------------------------------------------------------

/// `user` is in the list.
pub open spec fn spec_list_has(v: Seq<String>, user: Seq<char>) -> bool {
    exists|i: int| 0 <= i < v.len() && #[trigger] v[i]@ == user
}

/// Some person reviewing of the pull request has the given status.
pub open spec fn spec_has_reviewer_status(pr: PullRequest, status: Seq<char>) -> bool {
    exists|i: int| 0 <= i < pr.reviewers@.len() && #[trigger] pr.reviewers@[i].status@ == status
}

/// Some person reviewing approves the new pull request who did not approve the
/// previous one.
pub open spec fn spec_has_new_approval(prev_pr: Option<PullRequest>, new_pr: PullRequest) -> bool {
    exists|i: int| 0 <= i < new_pr.reviewers@.len()
        && #[trigger] new_pr.reviewers@[i].status@ == "APPROVED"@
        && !(prev_pr matches Some(p) && exists|j: int| 0 <= j < p.reviewers@.len()
            && #[trigger] p.reviewers@[j].status@ == "APPROVED"@
            && p.reviewers@[j].login@ == new_pr.reviewers@[i].login@)
}

/// `user` is in the list.
pub fn list_has(v: &Vec<String>, user: &str) -> (b: bool)
    ensures
        b == spec_list_has(v@, user@),
{
    let mut i: usize = 0;
    while i < v.len()
        invariant
            i <= v.len(),
            forall|j: int| 0 <= j < i ==> #[trigger] v@[j]@ != user@,
        decreases v.len() - i,
    {
        if str_eq(v[i].as_str(), user) {
            return true;
        }
        i = i + 1;
    }
    false
}

fn has_reviewer_status(pr: &PullRequest, status: &str) -> (b: bool)
    ensures
        b == spec_has_reviewer_status(*pr, status@),
{
    let mut i: usize = 0;
    while i < pr.reviewers.len()
        invariant
            i <= pr.reviewers.len(),
            forall|j: int| 0 <= j < i ==> #[trigger] pr.reviewers@[j].status@ != status@,
        decreases pr.reviewers.len() - i,
    {
        if str_eq(pr.reviewers[i].status.as_str(), status) {
            return true;
        }
        i = i + 1;
    }
    false
}

fn approved_by(pr: &PullRequest, login: &str) -> (b: bool)
    ensures
        b == exists|j: int| 0 <= j < pr.reviewers@.len()
            && #[trigger] pr.reviewers@[j].status@ == "APPROVED"@
            && pr.reviewers@[j].login@ == login@,
{
    let mut i: usize = 0;
    while i < pr.reviewers.len()
        invariant
            i <= pr.reviewers.len(),
            forall|j: int| 0 <= j < i ==> !(#[trigger] pr.reviewers@[j].status@ == "APPROVED"@
                && pr.reviewers@[j].login@ == login@),
        decreases pr.reviewers.len() - i,
    {
        if str_eq(pr.reviewers[i].status.as_str(), "APPROVED")
            && str_eq(pr.reviewers[i].login.as_str(), login) {
            return true;
        }
        i = i + 1;
    }
    false
}

fn has_new_approval(prev_pr: Option<&PullRequest>, new_pr: &PullRequest) -> (b: bool)
    ensures
        b == spec_has_new_approval(opt_pr(prev_pr), *new_pr),
{
    let mut i: usize = 0;
    while i < new_pr.reviewers.len()
        invariant
            i <= new_pr.reviewers.len(),
            forall|k: int| 0 <= k < i ==> !(#[trigger] new_pr.reviewers@[k].status@ == "APPROVED"@
                && !(opt_pr(prev_pr) matches Some(p) && exists|j: int| 0 <= j < p.reviewers@.len()
                    && #[trigger] p.reviewers@[j].status@ == "APPROVED"@
                    && p.reviewers@[j].login@ == new_pr.reviewers@[k].login@)),
        decreases new_pr.reviewers.len() - i,
    {
        let r = &new_pr.reviewers[i];
        if str_eq(r.status.as_str(), "APPROVED") {
            let before = match prev_pr {
                Some(p) => approved_by(p, r.login.as_str()),
                None => false,
            };
            if !before {
                return true;
            }
        }
        i = i + 1;
    }
    false
}

/// The pull request a reference option points at.
pub open spec fn opt_pr(p: Option<&PullRequest>) -> Option<PullRequest> {
    match p {
        Some(x) => Some(*x),
        None => None,
    }
}

/// The value of an optional state.
pub open spec fn opt_state(s: Option<&AttentionState>) -> Option<AttentionStateView> {
    match s {
        Some(x) => Some(x@),
        None => None,
    }
}

// ---------------------------------------------------------------------
// The rules
// ---------------------------------------------------------------------

/// The quiet period has passed since the latest new comment.
pub open spec fn spec_quiet_since_new_comments(
    tl: Seq<TimelineEvent>,
    last_seen: Option<Timestamp>,
    now: Timestamp,
    quiet_mins: int,
) -> bool {
    spec_latest_new_comment_ts(tl, last_seen) matches Some(ts) && spec_minutes_elapsed(now, ts, quiet_mins)
}

/// The rule for `r` fires on this poll (before the disabled rules are set aside).
pub open spec fn spec_reason_fires(
    r: TriggerReason,
    prev_pr: Option<PullRequest>,
    new_pr: PullRequest,
    tl: Seq<TimelineEvent>,
    user: Seq<char>,
    now: Timestamp,
    quiet_mins: int,
    is_first: bool,
    last_seen: Option<Timestamp>,
) -> bool {
    let own = new_pr.author@ == user;
    match r {
        TriggerReason::CiFailed => own && new_pr.ci_status == CIStatus::Failing
            && (is_first || !(prev_pr matches Some(p) && p.ci_status == CIStatus::Failing)),
        TriggerReason::ChangesRequested => own && new_pr.review_status == ReviewStatus::ChangesRequested
            && (is_first || !(prev_pr matches Some(p) && p.review_status == ReviewStatus::ChangesRequested)),
        TriggerReason::MergeConflict => own && new_pr.mergeable == MergeableStatus::Conflicting
            && (is_first || !(prev_pr matches Some(p) && p.mergeable == MergeableStatus::Conflicting)),
        TriggerReason::Approved => own && spec_has_new_approval(prev_pr, new_pr),
        TriggerReason::NewComments => own
            && spec_any_event(EventQuery::AnyComment, tl, user, last_seen, is_first)
            && (is_first || spec_quiet_since_new_comments(tl, last_seen, now, quiet_mins)),
        TriggerReason::ReviewRequested => !own && spec_list_has(new_pr.requested_reviewers@, user)
            && (is_first || !(prev_pr matches Some(p) && spec_list_has(p.requested_reviewers@, user))),
        TriggerReason::ReReviewRequested => !own
            && spec_any_event(EventQuery::UserReview, tl, user, last_seen, is_first)
            && spec_any_event(EventQuery::ReRequest, tl, user, last_seen, is_first),
        TriggerReason::Mentioned => !own && !is_first
            && spec_any_event(EventQuery::Mention, tl, user, last_seen, is_first),
        TriggerReason::CommentReply => !own
            && spec_any_event(EventQuery::UserComment, tl, user, last_seen, is_first)
            && spec_any_event(EventQuery::OtherNewComment, tl, user, last_seen, is_first)
            && (is_first || spec_quiet_since_new_comments(tl, last_seen, now, quiet_mins)),
    }
}

/// The rule for `r` fires on this poll and is not disabled.
pub open spec fn spec_fired(
    r: TriggerReason,
    prev_pr: Option<PullRequest>,
    new_pr: PullRequest,
    tl: Seq<TimelineEvent>,
    user: Seq<char>,
    now: Timestamp,
    quiet_mins: int,
    is_first: bool,
    last_seen: Option<Timestamp>,
    disabled: Set<TriggerReason>,
) -> bool {
    spec_reason_fires(r, prev_pr, new_pr, tl, user, now, quiet_mins, is_first, last_seen)
        && !disabled.contains(r)
}

/// The user's new comment on the pull request (after the first appearance)
/// counts as seeing it: on the user's own pull request any comment, inline
/// ones included; on another's a top-level comment (a submitted review there
/// only clears the review requests).
pub open spec fn spec_user_activity(
    new_pr: PullRequest,
    tl: Seq<TimelineEvent>,
    user: Seq<char>,
    is_first: bool,
    last_seen: Option<Timestamp>,
) -> bool {
    !is_first && if new_pr.author@ == user {
        spec_any_event(EventQuery::UserNewComment, tl, user, last_seen, is_first)
    } else {
        spec_any_event(EventQuery::UserNewTopComment, tl, user, last_seen, is_first)
    }
}

/// A targeted clearing event removes `r` on this poll.
pub open spec fn spec_reason_cleared(
    r: TriggerReason,
    prev_pr: Option<PullRequest>,
    new_pr: PullRequest,
    tl: Seq<TimelineEvent>,
    user: Seq<char>,
    is_first: bool,
    last_seen: Option<Timestamp>,
) -> bool {
    let review_reason = r == TriggerReason::ReviewRequested || r == TriggerReason::ReReviewRequested;
    ||| review_reason && new_pr.is_draft && (prev_pr matches Some(p) && !p.is_draft)
    ||| r == TriggerReason::CiFailed && new_pr.ci_status == CIStatus::Passing
    ||| r == TriggerReason::ChangesRequested && !spec_has_reviewer_status(new_pr, "CHANGES_REQUESTED"@)
    ||| review_reason && spec_any_event(EventQuery::UserNewReview, tl, user, last_seen, is_first)
    ||| review_reason && (prev_pr matches Some(p) && spec_list_has(p.requested_reviewers@, user)
            && !spec_list_has(new_pr.requested_reviewers@, user))
}

/// The state `evaluate` gives for a poll of a pull request.
pub open spec fn spec_evaluate(
    prev_state: Option<AttentionStateView>,
    prev_pr: Option<PullRequest>,
    new_pr: PullRequest,
    tl: Seq<TimelineEvent>,
    user: Seq<char>,
    now: Timestamp,
    quiet_mins: int,
    disabled: Set<TriggerReason>,
) -> AttentionStateView {
    let is_first = prev_state is None;
    let s0 = match prev_state {
        Some(s) => s,
        None => initial_state_view(),
    };
    let last_seen = s0.last_seen_at;
    let last_comment = spec_updated_last_comment(s0.last_comment_at, tl);
    if new_pr.status == PRStatus::Closed || new_pr.status == PRStatus::Merged {
        AttentionStateView { active: Set::empty(), last_seen_at: last_seen, last_comment_at: last_comment }
    } else {
        let activity = spec_user_activity(new_pr, tl, user, is_first, last_seen);
        let re_review = spec_fired(TriggerReason::ReReviewRequested, prev_pr, new_pr, tl, user, now,
            quiet_mins, is_first, last_seen, disabled);
        let review = spec_fired(TriggerReason::ReviewRequested, prev_pr, new_pr, tl, user, now,
            quiet_mins, is_first, last_seen, disabled);
        AttentionStateView {
            active: Set::new(|r: TriggerReason|
                ((s0.active.contains(r) && !activity
                    && !spec_reason_cleared(r, prev_pr, new_pr, tl, user, is_first, last_seen))
                || spec_fired(r, prev_pr, new_pr, tl, user, now, quiet_mins, is_first, last_seen, disabled))
                && !(r == TriggerReason::ReviewRequested && re_review)
                && !(r == TriggerReason::ReReviewRequested && review && !re_review)),
            last_seen_at: if activity { Some(now) } else { last_seen },
            last_comment_at: last_comment,
        }
    }
}

/// `x` is held after the first `k` rules (in `fire_rank` order) have added
/// their reasons to the cleared set.
pub open spec fn adding_member(
    x: TriggerReason,
    cleared: Set<TriggerReason>,
    k: int,
    prev_pr: Option<PullRequest>,
    new_pr: PullRequest,
    tl: Seq<TimelineEvent>,
    user: Seq<char>,
    now: Timestamp,
    quiet_mins: int,
    is_first: bool,
    last_seen: Option<Timestamp>,
    disabled: Set<TriggerReason>,
) -> bool {
    (cleared.contains(x) || (fire_rank(x) < k
        && spec_fired(x, prev_pr, new_pr, tl, user, now, quiet_mins, is_first, last_seen, disabled)))
    && !(x == TriggerReason::ReviewRequested && k > 6
        && spec_fired(TriggerReason::ReReviewRequested, prev_pr, new_pr, tl, user, now, quiet_mins,
            is_first, last_seen, disabled))
    && !(x == TriggerReason::ReReviewRequested && k > 5
        && spec_fired(TriggerReason::ReviewRequested, prev_pr, new_pr, tl, user, now, quiet_mins,
            is_first, last_seen, disabled)
        && !(k > 6 && spec_fired(TriggerReason::ReReviewRequested, prev_pr, new_pr, tl, user, now, quiet_mins,
            is_first, last_seen, disabled)))
}

/// The held set is exactly the `adding_member` reasons.
pub open spec fn adding_inv(
    active: Set<TriggerReason>,
    cleared: Set<TriggerReason>,
    k: int,
    prev_pr: Option<PullRequest>,
    new_pr: PullRequest,
    tl: Seq<TimelineEvent>,
    user: Seq<char>,
    now: Timestamp,
    quiet_mins: int,
    is_first: bool,
    last_seen: Option<Timestamp>,
    disabled: Set<TriggerReason>,
) -> bool {
    forall|x: TriggerReason| #[trigger] active.contains(x)
        <==> adding_member(x, cleared, k, prev_pr, new_pr, tl, user, now, quiet_mins, is_first, last_seen, disabled)
}

/// The position of a reason in the order in which `evaluate` adds them.
pub open spec fn fire_rank(r: TriggerReason) -> int {
    match r {
        TriggerReason::CiFailed => 0,
        TriggerReason::ChangesRequested => 1,
        TriggerReason::MergeConflict => 2,
        TriggerReason::Approved => 3,
        TriggerReason::NewComments => 4,
        TriggerReason::ReviewRequested => 5,
        TriggerReason::ReReviewRequested => 6,
        TriggerReason::Mentioned => 7,
        TriggerReason::CommentReply => 8,
    }
}

/// The quiet period fits a `chrono` duration (wider ones make it panic).
pub open spec fn quiet_period_in_range(mins: u64) -> bool {
    -153_722_867_280_912 <= (mins as i64) <= 153_722_867_280_912
}

/// The quiet period has passed since the latest new comment.
fn quiet_since_new_comments(
    timeline: &[TimelineEvent],
    last_seen: Option<Timestamp>,
    now: Timestamp,
    quiet: i64,
) -> (b: bool)
    requires
        -153_722_867_280_912 <= quiet <= 153_722_867_280_912,
    ensures
        b == spec_quiet_since_new_comments(timeline@, last_seen, now, quiet as int),
{
    match latest_new_comment_at(timeline, last_seen) {
        Some(ts) => span_nanos(now, ts) >= (quiet as i128) * 60_000_000_000,
        None => false,
    }
}

/// Whether the rule for `r` fires (before the disabled rules are set aside).
fn reason_fires(
    r: TriggerReason,
    prev_pr: Option<&PullRequest>,
    new_pr: &PullRequest,
    timeline: &[TimelineEvent],
    user: &str,
    pattern: &Vec<char>,
    now: Timestamp,
    quiet: i64,
    is_first: bool,
    last_seen: Option<Timestamp>,
) -> (b: bool)
    requires
        pattern@ == seq!['@'] + user@,
        -153_722_867_280_912 <= quiet <= 153_722_867_280_912,
    ensures
        b == spec_reason_fires(r, opt_pr(prev_pr), *new_pr, timeline@, user@, now, quiet as int, is_first, last_seen),
{
    let own = str_eq(new_pr.author.as_str(), user);
    match r {
        TriggerReason::CiFailed => own && new_pr.ci_status == CIStatus::Failing
            && (is_first || !(match prev_pr { Some(p) => p.ci_status == CIStatus::Failing, None => false })),
        TriggerReason::ChangesRequested => own && new_pr.review_status == ReviewStatus::ChangesRequested
            && (is_first || !(match prev_pr {
                Some(p) => p.review_status == ReviewStatus::ChangesRequested,
                None => false,
            })),
        TriggerReason::MergeConflict => own && new_pr.mergeable == MergeableStatus::Conflicting
            && (is_first || !(match prev_pr {
                Some(p) => p.mergeable == MergeableStatus::Conflicting,
                None => false,
            })),
        TriggerReason::Approved => own && has_new_approval(prev_pr, new_pr),
        TriggerReason::NewComments => own
            && any_event(EventQuery::AnyComment, timeline, user, pattern, last_seen, is_first)
            && (is_first || quiet_since_new_comments(timeline, last_seen, now, quiet)),
        TriggerReason::ReviewRequested => !own && list_has(&new_pr.requested_reviewers, user)
            && (is_first || !(match prev_pr {
                Some(p) => list_has(&p.requested_reviewers, user),
                None => false,
            })),
        TriggerReason::ReReviewRequested => !own
            && any_event(EventQuery::UserReview, timeline, user, pattern, last_seen, is_first)
            && any_event(EventQuery::ReRequest, timeline, user, pattern, last_seen, is_first),
        TriggerReason::Mentioned => !own && !is_first
            && any_event(EventQuery::Mention, timeline, user, pattern, last_seen, is_first),
        TriggerReason::CommentReply => !own
            && any_event(EventQuery::UserComment, timeline, user, pattern, last_seen, is_first)
            && any_event(EventQuery::OtherNewComment, timeline, user, pattern, last_seen, is_first)
            && (is_first || quiet_since_new_comments(timeline, last_seen, now, quiet)),
    }
}

/// Recomputes a pull request's attention state after a poll.
///
/// `prev_state` is `None` on the pull request's first appearance, when
/// state-based rules fire for what is already there; `prev_pr` is the pull
/// request as last polled, `new_pr` as polled now, and `timeline` its
/// activity. A closed or merged pull request loses every reason. Otherwise the
/// clearing events apply first (the user's new comment on the pull request,
/// conversion to draft, passing CI, no outstanding change request,
/// the user's new review, the review request withdrawn), then the rules that
/// fire add their reasons, except the disabled ones; a review request and a
/// re-review request replace each other, the re-review winning when both fire.
pub fn evaluate(
    prev_state: Option<&AttentionState>,
    prev_pr: Option<&PullRequest>,
    new_pr: &PullRequest,
    timeline: &[TimelineEvent],
    current_user: &str,
    now: Timestamp,
    config: &AttentionConfig,
) -> (r: AttentionState)
    requires
        quiet_period_in_range(config.quiet_period_mins),
    ensures
        r@ == spec_evaluate(
            opt_state(prev_state),
            opt_pr(prev_pr),
            *new_pr,
            timeline@,
            current_user@,
            now,
            config.quiet_period_mins as i64 as int,
            config.disabled_reasons@,
        ),
        (opt_state(prev_state) matches Some(s) ==> !(s.active.contains(TriggerReason::ReviewRequested)
            && s.active.contains(TriggerReason::ReReviewRequested)))
            ==> !(r@.active.contains(TriggerReason::ReviewRequested)
                && r@.active.contains(TriggerReason::ReReviewRequested)),
        opt_state(prev_state) matches Some(s) ==> (s.last_comment_at is Some
            ==> (r@.last_comment_at matches Some(x) && !x.spec_before(s.last_comment_at->0))),
        forall|i: int| 0 <= i < timeline@.len() && spec_is_comment(#[trigger] timeline@[i])
            && spec_event_ts(timeline@[i]) is Some
            ==> (r@.last_comment_at matches Some(x) && !x.spec_before(spec_event_ts(timeline@[i])->0)),
{
    let r = evaluate_state(prev_state, prev_pr, new_pr, timeline, current_user, now, config);
    proof {
        let args = (opt_state(prev_state), opt_pr(prev_pr), config.quiet_period_mins as i64 as int,
            config.disabled_reasons@);
        if args.0 matches Some(s) ==> !(s.active.contains(TriggerReason::ReviewRequested)
            && s.active.contains(TriggerReason::ReReviewRequested)) {
            crate::domain::attention_laws::lemma_review_reasons_exclusive(args.0, args.1, *new_pr, timeline@,
                current_user@, now, args.2, args.3);
        }
        crate::domain::attention_laws::lemma_last_comment_never_moves_back(args.0, args.1, *new_pr, timeline@,
            current_user@, now, args.2, args.3);
    }
    r
}

/// The state of a poll (see `spec_evaluate`).
fn evaluate_state(
    prev_state: Option<&AttentionState>,
    prev_pr: Option<&PullRequest>,
    new_pr: &PullRequest,
    timeline: &[TimelineEvent],
    current_user: &str,
    now: Timestamp,
    config: &AttentionConfig,
) -> (r: AttentionState)
    requires
        quiet_period_in_range(config.quiet_period_mins),
    ensures
        r@ == spec_evaluate(
            opt_state(prev_state),
            opt_pr(prev_pr),
            *new_pr,
            timeline@,
            current_user@,
            now,
            config.quiet_period_mins as i64 as int,
            config.disabled_reasons@,
        ),
{
    let is_first = prev_state.is_none();
    let mut state = match prev_state {
        Some(s) => s.duplicate(),
        None => AttentionState::default(),
    };
    let ghost s0 = state@;
    let last_seen = state.last_seen_at;
    let pattern = mention_pattern(current_user);
    let ghost tl = timeline@;
    let ghost user = current_user@;
    let ghost pp = opt_pr(prev_pr);

    // Closed or merged: every reason goes, nothing fires.
    if new_pr.status == PRStatus::Closed || new_pr.status == PRStatus::Merged {
        state.active_reasons.clear();
        update_last_comment_at(&mut state, timeline);
        proof {
            assert(state@.active =~= Set::<TriggerReason>::empty());
        }
        return state;
    }

    // The user's new comment on the pull request clears everything.
    let is_own_pr = str_eq(new_pr.author.as_str(), current_user);
    let activity = !is_first && if is_own_pr {
        any_event(EventQuery::UserNewComment, timeline, current_user, &pattern, last_seen, is_first)
    } else {
        any_event(EventQuery::UserNewTopComment, timeline, current_user, &pattern, last_seen, is_first)
    };
    if activity {
        apply_user_activity(&mut state, now);
    }

    let review_reasons = [TriggerReason::ReviewRequested, TriggerReason::ReReviewRequested];
    proof {
        assert(review_reasons@.to_set() =~= set![TriggerReason::ReviewRequested, TriggerReason::ReReviewRequested]) by {
            assert forall|x: TriggerReason| review_reasons@.to_set().contains(x)
                <==> (x == TriggerReason::ReviewRequested || x == TriggerReason::ReReviewRequested) by {
                if x == TriggerReason::ReviewRequested { assert(review_reasons@[0] == x); }
                if x == TriggerReason::ReReviewRequested { assert(review_reasons@[1] == x); }
            }
        }
    }
    let ghost s_act = state@.active;

    // Converted to draft.
    let to_draft = new_pr.is_draft && match prev_pr {
        Some(p) => !p.is_draft,
        None => false,
    };
    if to_draft {
        state.remove_reasons(&review_reasons);
    }
    // CI passes.
    if new_pr.ci_status == CIStatus::Passing {
        state.active_reasons.remove(&TriggerReason::CiFailed);
    }
    // No person reviewing requests changes any more.
    let has_cr_reviewer = has_reviewer_status(new_pr, "CHANGES_REQUESTED");
    if !has_cr_reviewer {
        state.active_reasons.remove(&TriggerReason::ChangesRequested);
    }
    // The user submitted a new review.
    let reviewed = any_event(EventQuery::UserNewReview, timeline, current_user, &pattern, last_seen, is_first);
    if reviewed {
        state.remove_reasons(&review_reasons);
    }
    // The review request was withdrawn.
    let withdrawn = match prev_pr {
        Some(p) => list_has(&p.requested_reviewers, current_user)
            && !list_has(&new_pr.requested_reviewers, current_user),
        None => false,
    };
    if withdrawn {
        state.remove_reasons(&review_reasons);
    }

    proof {
        assert forall|x: TriggerReason| state@.active.contains(x)
            <==> (s0.active.contains(x) && !activity
                && !spec_reason_cleared(x, pp, *new_pr, tl, user, is_first, last_seen)) by {}
    }
    let ghost s_cleared = state@.active;

    // The rules that fire add their reasons, in this order.
    let quiet = #[verifier::truncate] (config.quiet_period_mins as i64);
    let order = [
        TriggerReason::CiFailed,
        TriggerReason::ChangesRequested,
        TriggerReason::MergeConflict,
        TriggerReason::Approved,
        TriggerReason::NewComments,
        TriggerReason::ReviewRequested,
        TriggerReason::ReReviewRequested,
        TriggerReason::Mentioned,
        TriggerReason::CommentReply,
    ];
    let ghost dis = config.disabled_reasons@;
    let mut k: usize = 0;
    while k < 9
        invariant
            k <= 9,
            order@.len() == 9,
            order@[0] == TriggerReason::CiFailed,
            order@[1] == TriggerReason::ChangesRequested,
            order@[2] == TriggerReason::MergeConflict,
            order@[3] == TriggerReason::Approved,
            order@[4] == TriggerReason::NewComments,
            order@[5] == TriggerReason::ReviewRequested,
            order@[6] == TriggerReason::ReReviewRequested,
            order@[7] == TriggerReason::Mentioned,
            order@[8] == TriggerReason::CommentReply,
            pattern@ == seq!['@'] + current_user@,
            -153_722_867_280_912 <= quiet <= 153_722_867_280_912,
            tl == timeline@,
            user == current_user@,
            pp == opt_pr(prev_pr),
            state@.last_seen_at == (if activity { Some(now) } else { last_seen }),
            state@.last_comment_at == s0.last_comment_at,
            dis == config.disabled_reasons@,
            adding_inv(state@.active, s_cleared, k as int, pp, *new_pr, tl, user, now, quiet as int, is_first, last_seen, dis),
        decreases 9 - k,
    {
        let reason = order[k];
        let ghost prev_active = state@.active;
        assert(fire_rank(reason) == k);
        let fires = reason_fires(reason, prev_pr, new_pr, timeline, current_user, &pattern, now, quiet, is_first, last_seen)
            && !config.disabled_reasons.contains(&reason);
        if fires {
            if reason == TriggerReason::ReReviewRequested {
                state.active_reasons.remove(&TriggerReason::ReviewRequested);
            }
            if reason == TriggerReason::ReviewRequested {
                state.active_reasons.remove(&TriggerReason::ReReviewRequested);
            }
            state.active_reasons.insert(reason);
        }
        let k1 = k + 1;
        proof {
            assert(fires == spec_fired(reason, pp, *new_pr, tl, user, now, quiet as int, is_first, last_seen, dis));
            assert forall|x: TriggerReason| state@.active.contains(x)
                <==> adding_member(x, s_cleared, k1 as int, pp, *new_pr, tl, user, now, quiet as int, is_first, last_seen, dis) by {
                assert(prev_active.contains(x)
                    <==> adding_member(x, s_cleared, k as int, pp, *new_pr, tl, user, now, quiet as int, is_first, last_seen, dis));
                if x == reason {
                } else if x == TriggerReason::ReviewRequested && reason == TriggerReason::ReReviewRequested {
                } else if x == TriggerReason::ReReviewRequested && reason == TriggerReason::ReviewRequested {
                } else {
                    assert(state@.active.contains(x) == prev_active.contains(x));
                }
            }
        }
        k = k1;
    }

    update_last_comment_at(&mut state, timeline);
    proof {
        let spec_r = spec_evaluate(opt_state(prev_state), pp, *new_pr, tl, user, now, quiet as int,
            config.disabled_reasons@);
        assert forall|x: TriggerReason| state@.active.contains(x) <==> spec_r.active.contains(x) by {
            assert(fire_rank(x) < 9);
        }
        assert(state@.active =~= spec_r.active);
    }
    state
}

} // verus!
