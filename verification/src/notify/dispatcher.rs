//! Which desktop notifications to send, at most once per pull request and
//! kind of change.
use vstd::prelude::*;
use crate::domain::pr::PullRequest;
use crate::util::text::{chars_of, chars_eq, push_str, decimal_string, decimal};

verus! {

/// The kinds of change a notification reports.
#[derive(Debug, Clone, Copy, PartialEq, Eq, Hash, Structural)]
pub enum NotificationEvent {
    NewPr,
    CiUpdate,
    ReviewUpdate,
    CommentUpdate,
}

/// A desktop notification to show: its title and its body.
#[derive(Debug)]
pub struct DesktopNotification {
    pub title: String,
    pub body: String,
}

/// Remembers which (pull request, kind) pairs were already notified.
#[derive(Debug)]
pub struct NotificationDispatcher {
    enabled: bool,
    last_notifications: Vec<(Vec<char>, NotificationEvent)>,
}

impl NotificationDispatcher {
    /// Notifications are on.
    pub closed spec fn spec_enabled(&self) -> bool {
        self.enabled
    }

    /// The pairs already notified.
    pub closed spec fn spec_history(&self) -> Set<(Seq<char>, NotificationEvent)> {
        Set::new(|p: (Seq<char>, NotificationEvent)| exists|i: int| 0 <= i < self.last_notifications@.len()
            && #[trigger] self.last_notifications@[i].0@ == p.0 && self.last_notifications@[i].1 == p.1)
    }

    /// A dispatcher with nothing notified yet.
    pub fn new(enabled: bool) -> (r: NotificationDispatcher)
        ensures
            r.spec_enabled() == enabled,
            r.spec_history() == Set::<(Seq<char>, NotificationEvent)>::empty(),
    {
        let r = NotificationDispatcher { enabled, last_notifications: Vec::new() };
        assert(r.spec_history() =~= Set::<(Seq<char>, NotificationEvent)>::empty());
        r
    }

    /// Forgets every notification sent.
    pub fn clear_history(&mut self)
        ensures
            final(self).spec_enabled() == old(self).spec_enabled(),
            final(self).spec_history() == Set::<(Seq<char>, NotificationEvent)>::empty(),
    {
        self.last_notifications = Vec::new();
        assert(self.spec_history() =~= Set::<(Seq<char>, NotificationEvent)>::empty());
    }

    /// The start of a poll cycle keeps the history, so nothing is notified
    /// twice across cycles.
    pub fn clear_cycle(&mut self)
        ensures
            final(self).spec_enabled() == old(self).spec_enabled(),
            final(self).spec_history() == old(self).spec_history(),
    {
    }

    /// True, and remembered, the first time the pair comes; false after.
    pub fn should_notify(&mut self, pr_id: &str, event: NotificationEvent) -> (b: bool)
        ensures
            final(self).spec_enabled() == old(self).spec_enabled(),
            b == !old(self).spec_history().contains((pr_id@, event)),
            final(self).spec_history() == old(self).spec_history().insert((pr_id@, event)),
    {
        let id = chars_of(pr_id);
        let mut i: usize = 0;
        while i < self.last_notifications.len()
            invariant
                i <= self.last_notifications.len(),
                id@ == pr_id@,
                forall|j: int| 0 <= j < i ==> !(#[trigger] self.last_notifications@[j].0@ == id@
                    && self.last_notifications@[j].1 == event),
            decreases self.last_notifications.len() - i,
        {
            if self.last_notifications[i].1 == event && chars_eq(&self.last_notifications[i].0, &id) {
                assert(self.spec_history().contains((pr_id@, event)));
                assert(self.spec_history().insert((pr_id@, event)) =~= self.spec_history());
                return false;
            }
            i = i + 1;
        }
        let ghost before = self.last_notifications@;
        self.last_notifications.push((id, event));
        assert(self.spec_history() =~= old(self).spec_history().insert((pr_id@, event))) by {
            assert forall|p: (Seq<char>, NotificationEvent)| self.spec_history().contains(p)
                <==> old(self).spec_history().insert((pr_id@, event)).contains(p) by {
                if old(self).spec_history().contains(p) {
                    let j = choose|j: int| 0 <= j < before.len() && #[trigger] before[j].0@ == p.0 && before[j].1 == p.1;
                    assert(self.last_notifications@[j] == before[j]);
                }
                if p == (pr_id@, event) {
                    assert(self.last_notifications@[before.len() as int].0@ == p.0);
                }
                if self.spec_history().contains(p) && p != (pr_id@, event) {
                    let j = choose|j: int| 0 <= j < self.last_notifications@.len()
                        && #[trigger] self.last_notifications@[j].0@ == p.0 && self.last_notifications@[j].1 == p.1;
                    assert(j < before.len());
                    assert(before[j] == self.last_notifications@[j]);
                }
            }
        }
        true
    }

    /// The notifications due for an updated pull request, in the order
    /// review, CI, comments: each kind of change is reported when it happened
    /// and that kind was not reported for this pull request before. Nothing
    /// when notifications are off.
    pub fn notify_pr_update(&mut self, old_pr: &PullRequest, new_pr: &PullRequest) -> (r: Vec<DesktopNotification>)
        ensures
            final(self).spec_enabled() == old(self).spec_enabled(),
            !old(self).spec_enabled() ==> r@.len() == 0 && final(self).spec_history() == old(self).spec_history(),
            old(self).spec_enabled() ==> final(self).spec_history() == old(self).spec_history()
                .union(update_kinds(*old_pr, *new_pr)),
            old(self).spec_enabled() ==> note_views(r@) == spec_update_notes(*old_pr, *new_pr, old(self).spec_history()),
    {
        let mut out: Vec<DesktopNotification> = Vec::new();
        if !self.enabled {
            return out;
        }
        let ghost h0 = self.spec_history();
        let id = new_pr.id.as_str();
        if new_pr.review_status != old_pr.review_status && self.should_notify(id, NotificationEvent::ReviewUpdate) {
            let mut title = String::from_str("Review Update: #");
            push_str(&mut title, decimal_string(new_pr.number as u128).as_str());
            let mut body = new_pr.title.clone();
            push_str(&mut body, " is now ");
            push_str(&mut body, new_pr.review_status.label());
            out.push(DesktopNotification { title, body });
        }
        let ghost o1 = note_views(out@);
        assert(o1 == spec_review_notes(*old_pr, *new_pr, h0));
        let ghost h1 = self.spec_history();
        if new_pr.ci_status != old_pr.ci_status && self.should_notify(id, NotificationEvent::CiUpdate) {
            let mut title = String::from_str("CI Update: #");
            push_str(&mut title, decimal_string(new_pr.number as u128).as_str());
            let mut body = new_pr.title.clone();
            push_str(&mut body, " CI is now ");
            push_str(&mut body, new_pr.ci_status.label());
            out.push(DesktopNotification { title, body });
        }
        assert(h1.contains((id@, NotificationEvent::CiUpdate)) == h0.contains((id@, NotificationEvent::CiUpdate)));
        let ghost o2 = note_views(out@);
        assert(o2 =~= o1 + spec_ci_notes(*old_pr, *new_pr, h0));
        let ghost h2 = self.spec_history();
        if new_pr.comment_count > old_pr.comment_count && self.should_notify(id, NotificationEvent::CommentUpdate) {
            let mut title = String::from_str("New Comment: #");
            push_str(&mut title, decimal_string(new_pr.number as u128).as_str());
            let mut body = new_pr.title.clone();
            push_str(&mut body, " has ");
            push_str(&mut body, decimal_string((new_pr.comment_count - old_pr.comment_count) as u128).as_str());
            push_str(&mut body, " new comments");
            out.push(DesktopNotification { title, body });
        }
        assert(h2.contains((id@, NotificationEvent::CommentUpdate)) == h0.contains((id@, NotificationEvent::CommentUpdate)));
        assert(note_views(out@) =~= o2 + spec_comment_notes(*old_pr, *new_pr, h0));
        assert(self.spec_history() =~= h0.union(update_kinds(*old_pr, *new_pr)));
        out
    }

    /// The notification due for a newly followed pull request: one, the
    /// first time it is seen, while notifications are on.
    pub fn notify_new_pr(&mut self, pr: &PullRequest) -> (r: Vec<DesktopNotification>)
        ensures
            final(self).spec_enabled() == old(self).spec_enabled(),
            !old(self).spec_enabled() ==> r@.len() == 0 && final(self).spec_history() == old(self).spec_history(),
            old(self).spec_enabled() ==> final(self).spec_history() == old(self).spec_history()
                .insert((pr.id@, NotificationEvent::NewPr)),
            old(self).spec_enabled() ==> note_views(r@) == spec_new_pr_notes(*pr, old(self).spec_history()),
    {
        let mut out: Vec<DesktopNotification> = Vec::new();
        if !self.enabled {
            return out;
        }
        if self.should_notify(pr.id.as_str(), NotificationEvent::NewPr) {
            let mut title = String::from_str("New PR: #");
            push_str(&mut title, decimal_string(pr.number as u128).as_str());
            let mut body = pr.title.clone();
            push_str(&mut body, " by ");
            push_str(&mut body, pr.author.as_str());
            out.push(DesktopNotification { title, body });
            assert(note_views(out@) =~= seq![("New PR: #"@ + decimal(pr.number as nat), pr.title@ + " by "@ + pr.author@)]);
        } else {
            assert(note_views(out@) =~= Seq::<(Seq<char>, Seq<char>)>::empty());
        }
        out
    }
}

/// Notifications as (title, body) pairs.
pub open spec fn note_views(v: Seq<DesktopNotification>) -> Seq<(Seq<char>, Seq<char>)> {
    v.map_values(|n: DesktopNotification| (n.title@, n.body@))
}

/// The notification for a newly followed pull request, unless one was sent.
pub open spec fn spec_new_pr_notes(pr: PullRequest, h: Set<(Seq<char>, NotificationEvent)>) -> Seq<(Seq<char>, Seq<char>)> {
    if h.contains((pr.id@, NotificationEvent::NewPr)) {
        Seq::empty()
    } else {
        seq![("New PR: #"@ + decimal(pr.number as nat), pr.title@ + " by "@ + pr.author@)]
    }
}

/// The review notification, when the review status changed and none was sent.
pub open spec fn spec_review_notes(old_pr: PullRequest, new_pr: PullRequest, h: Set<(Seq<char>, NotificationEvent)>) -> Seq<(Seq<char>, Seq<char>)> {
    if new_pr.review_status != old_pr.review_status && !h.contains((new_pr.id@, NotificationEvent::ReviewUpdate)) {
        seq![("Review Update: #"@ + decimal(new_pr.number as nat),
            new_pr.title@ + " is now "@ + new_pr.review_status.spec_label())]
    } else {
        Seq::empty()
    }
}

/// The CI notification, when the CI status changed and none was sent.
pub open spec fn spec_ci_notes(old_pr: PullRequest, new_pr: PullRequest, h: Set<(Seq<char>, NotificationEvent)>) -> Seq<(Seq<char>, Seq<char>)> {
    if new_pr.ci_status != old_pr.ci_status && !h.contains((new_pr.id@, NotificationEvent::CiUpdate)) {
        seq![("CI Update: #"@ + decimal(new_pr.number as nat),
            new_pr.title@ + " CI is now "@ + new_pr.ci_status.spec_label())]
    } else {
        Seq::empty()
    }
}

/// The comment notification, when comments were added and none was sent.
pub open spec fn spec_comment_notes(old_pr: PullRequest, new_pr: PullRequest, h: Set<(Seq<char>, NotificationEvent)>) -> Seq<(Seq<char>, Seq<char>)> {
    if new_pr.comment_count > old_pr.comment_count && !h.contains((new_pr.id@, NotificationEvent::CommentUpdate)) {
        seq![("New Comment: #"@ + decimal(new_pr.number as nat),
            new_pr.title@ + " has "@ + decimal((new_pr.comment_count - old_pr.comment_count) as nat) + " new comments"@)]
    } else {
        Seq::empty()
    }
}

/// The notifications due for an update, in order.
pub open spec fn spec_update_notes(old_pr: PullRequest, new_pr: PullRequest, h: Set<(Seq<char>, NotificationEvent)>) -> Seq<(Seq<char>, Seq<char>)> {
    spec_review_notes(old_pr, new_pr, h) + spec_ci_notes(old_pr, new_pr, h) + spec_comment_notes(old_pr, new_pr, h)
}

/// The kinds of change between two polls of a pull request, paired with its id.
pub open spec fn update_kinds(old_pr: PullRequest, new_pr: PullRequest) -> Set<(Seq<char>, NotificationEvent)> {
    Set::new(|p: (Seq<char>, NotificationEvent)| p.0 == new_pr.id@ && (
        (p.1 == NotificationEvent::ReviewUpdate && new_pr.review_status != old_pr.review_status)
        || (p.1 == NotificationEvent::CiUpdate && new_pr.ci_status != old_pr.ci_status)
        || (p.1 == NotificationEvent::CommentUpdate && new_pr.comment_count > old_pr.comment_count)))
}

/// Each kind of update is notified once per pull request: once the
/// history holds what an update sent, the same update sends nothing more.
pub proof fn lemma_update_notified_once(old_pr: PullRequest, new_pr: PullRequest, h: Set<(Seq<char>, NotificationEvent)>)
    ensures
        spec_update_notes(old_pr, new_pr, h.union(update_kinds(old_pr, new_pr))) == Seq::<(Seq<char>, Seq<char>)>::empty(),
{
    let h1 = h.union(update_kinds(old_pr, new_pr));
    if new_pr.review_status != old_pr.review_status {
        assert(update_kinds(old_pr, new_pr).contains((new_pr.id@, NotificationEvent::ReviewUpdate)));
    }
    if new_pr.ci_status != old_pr.ci_status {
        assert(update_kinds(old_pr, new_pr).contains((new_pr.id@, NotificationEvent::CiUpdate)));
    }
    if new_pr.comment_count > old_pr.comment_count {
        assert(update_kinds(old_pr, new_pr).contains((new_pr.id@, NotificationEvent::CommentUpdate)));
    }
    assert(spec_update_notes(old_pr, new_pr, h1) =~= Seq::<(Seq<char>, Seq<char>)>::empty());
}

/// A newly followed pull request is announced once: after the first
/// announcement, another sends nothing.
pub proof fn lemma_new_pr_notified_once(pr: PullRequest, h: Set<(Seq<char>, NotificationEvent)>)
    ensures
        spec_new_pr_notes(pr, h.insert((pr.id@, NotificationEvent::NewPr))) == Seq::<(Seq<char>, Seq<char>)>::empty(),
{
}

} // verus!
