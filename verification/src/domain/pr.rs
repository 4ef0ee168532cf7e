//! The pull request model and the records that come with it.
use vstd::prelude::*;
use crate::domain::attention::AttentionState;

verus! {

/// A followed pull request, as fetched from GitHub and kept between runs.
#[derive(Debug)]
pub struct PullRequest {
    pub id: String,
    pub number: u32,
    pub title: String,
    pub author: String,
    pub repo: String,
    pub status: PRStatus,
    pub created_at: String,
    pub updated_at: String,
    pub additions: u32,
    pub deletions: u32,
    pub review_status: ReviewStatus,
    pub comment_count: u32,
    pub unresolved_count: u32,
    pub total_resolvable_count: u32,
    pub conversational_count: u32,
    pub ci_status: CIStatus,
    pub mergeable: MergeableStatus,
    pub head_ref: String,
    pub body: String,
    pub url: String,
    pub requested_reviewers: Vec<String>,
    pub reviewers: Vec<Reviewer>,
    pub is_draft: bool,
    pub matched_queries: Vec<String>,
    pub last_seen_at: Option<String>,
    pub last_seen_unresolved_count: u32,
    pub last_seen_total_resolvable_count: u32,
    pub last_seen_conversational_count: u32,
    pub attention_state: AttentionState,
}

/// A person reviewing of a pull request and the state of their review
/// ("APPROVED", "CHANGES_REQUESTED", "COMMENTED", "PENDING").
#[derive(Debug)]
pub struct Reviewer {
    pub login: String,
    pub status: String,
}

/// One CI check run of a commit.
#[derive(Debug)]
pub struct CheckRun {
    pub name: String,
    pub status: String,
    pub conclusion: Option<String>,
    pub url: String,
}

/// One entry of a pull request's activity timeline.
#[derive(Debug)]
pub struct TimelineEvent {
    pub id: String,
    pub event_type: String,
    pub actor: String,
    pub created_at: String,
    pub content: Option<String>,
    pub reviewer_login: Option<String>,
}

/// Whether a pull request is open, closed or merged.
#[derive(Debug, Clone, Copy, PartialEq, Eq, Structural)]
pub enum PRStatus {
    Open,
    Closed,
    Merged,
}

/// The overall review decision of a pull request.
#[derive(Debug, Clone, Copy, PartialEq, Eq, Structural)]
pub enum ReviewStatus {
    Pending,
    Approved,
    ChangesRequested,
}

/// The combined state of a pull request's CI checks.
#[derive(Debug, Clone, Copy, PartialEq, Eq, Structural)]
pub enum CIStatus {
    Pending,
    Passing,
    Failing,
    Skipped,
}

/// Whether a pull request can be merged.
#[derive(Debug, Clone, Copy, PartialEq, Eq, Structural)]
pub enum MergeableStatus {
    Mergeable,
    Conflicting,
    BlockedByRequirements,
    Unknown,
}

/// The API rate limit as last reported by GitHub.
#[derive(Debug, Clone, Copy, PartialEq, Eq, Structural)]
pub struct RateLimitStatus {
    pub remaining: u32,
    pub limit: u32,
    pub reset_at: u64,
}

impl PRStatus {
    /// The display name of the status.
    pub open spec fn spec_label(self) -> Seq<char> {
        match self {
            PRStatus::Open => "Open"@,
            PRStatus::Closed => "Closed"@,
            PRStatus::Merged => "Merged"@,
        }
    }

    /// The display name of the status, as `Display` writes it.
    pub fn label(&self) -> (r: &'static str)
        ensures
            r@ == self.spec_label(),
    {
        match self {
            PRStatus::Open => "Open",
            PRStatus::Closed => "Closed",
            PRStatus::Merged => "Merged",
        }
    }
}

impl ReviewStatus {
    /// The display name of the review status.
    pub open spec fn spec_label(self) -> Seq<char> {
        match self {
            ReviewStatus::Pending => "Pending"@,
            ReviewStatus::Approved => "Approved"@,
            ReviewStatus::ChangesRequested => "ChangesRequested"@,
        }
    }

    /// The display name of the review status, as `Display` writes it.
    pub fn label(&self) -> (r: &'static str)
        ensures
            r@ == self.spec_label(),
    {
        match self {
            ReviewStatus::Pending => "Pending",
            ReviewStatus::Approved => "Approved",
            ReviewStatus::ChangesRequested => "ChangesRequested",
        }
    }
}

impl CIStatus {
    /// The display name of the CI status.
    pub open spec fn spec_label(self) -> Seq<char> {
        match self {
            CIStatus::Pending => "Pending"@,
            CIStatus::Passing => "Passing"@,
            CIStatus::Failing => "Failing"@,
            CIStatus::Skipped => "Skipped"@,
        }
    }

    /// The display name of the CI status, as `Display` writes it.
    pub fn label(&self) -> (r: &'static str)
        ensures
            r@ == self.spec_label(),
    {
        match self {
            CIStatus::Pending => "Pending",
            CIStatus::Passing => "Passing",
            CIStatus::Failing => "Failing",
            CIStatus::Skipped => "Skipped",
        }
    }
}

/// A copy of a string list, element by element.
pub fn clone_strings(v: &Vec<String>) -> (r: Vec<String>)
    ensures
        r@ == v@,
{
    let mut out: Vec<String> = Vec::new();
    let mut i: usize = 0;
    while i < v.len()
        invariant
            i <= v.len(),
            out@ == v@.take(i as int),
        decreases v.len() - i,
    {
        out.push(v[i].clone());
        assert(v@.take(i as int).push(v@[i as int]) =~= v@.take(i + 1));
        i = i + 1;
    }
    assert(v@.take(v.len() as int) =~= v@);
    out
}

/// A copy of an optional string.
pub fn clone_opt_string(s: &Option<String>) -> (r: Option<String>)
    ensures
        r == *s,
{
    match s {
        Some(x) => Some(x.clone()),
        None => None,
    }
}

impl Reviewer {
    /// A copy of the person reviewing.
    pub fn duplicate(&self) -> (r: Reviewer)
        ensures
            r == *self,
    {
        Reviewer { login: self.login.clone(), status: self.status.clone() }
    }
}

impl TimelineEvent {
    /// A copy of the event.
    pub fn duplicate(&self) -> (r: TimelineEvent)
        ensures
            r == *self,
    {
        TimelineEvent {
            id: self.id.clone(),
            event_type: self.event_type.clone(),
            actor: self.actor.clone(),
            created_at: self.created_at.clone(),
            content: clone_opt_string(&self.content),
            reviewer_login: clone_opt_string(&self.reviewer_login),
        }
    }
}

impl CheckRun {
    /// A copy of the check run.
    pub fn duplicate(&self) -> (r: CheckRun)
        ensures
            r == *self,
    {
        CheckRun {
            name: self.name.clone(),
            status: self.status.clone(),
            conclusion: clone_opt_string(&self.conclusion),
            url: self.url.clone(),
        }
    }
}

impl PullRequest {
    /// Two pull requests hold the same values in every field.
    pub open spec fn spec_same(self, o: PullRequest) -> bool {
        &&& self.id == o.id
        &&& self.number == o.number
        &&& self.title == o.title
        &&& self.author == o.author
        &&& self.repo == o.repo
        &&& self.status == o.status
        &&& self.created_at == o.created_at
        &&& self.updated_at == o.updated_at
        &&& self.additions == o.additions
        &&& self.deletions == o.deletions
        &&& self.review_status == o.review_status
        &&& self.comment_count == o.comment_count
        &&& self.unresolved_count == o.unresolved_count
        &&& self.total_resolvable_count == o.total_resolvable_count
        &&& self.conversational_count == o.conversational_count
        &&& self.ci_status == o.ci_status
        &&& self.mergeable == o.mergeable
        &&& self.head_ref == o.head_ref
        &&& self.body == o.body
        &&& self.url == o.url
        &&& self.requested_reviewers@ == o.requested_reviewers@
        &&& self.reviewers@ == o.reviewers@
        &&& self.is_draft == o.is_draft
        &&& self.matched_queries@ == o.matched_queries@
        &&& self.last_seen_at == o.last_seen_at
        &&& self.last_seen_unresolved_count == o.last_seen_unresolved_count
        &&& self.last_seen_total_resolvable_count == o.last_seen_total_resolvable_count
        &&& self.last_seen_conversational_count == o.last_seen_conversational_count
        &&& self.attention_state@ == o.attention_state@
    }

    /// A copy of the pull request.
    pub fn duplicate(&self) -> (r: PullRequest)
        ensures
            r.spec_same(*self),
    {
        PullRequest {
            id: self.id.clone(),
            number: self.number,
            title: self.title.clone(),
            author: self.author.clone(),
            repo: self.repo.clone(),
            status: self.status,
            created_at: self.created_at.clone(),
            updated_at: self.updated_at.clone(),
            additions: self.additions,
            deletions: self.deletions,
            review_status: self.review_status,
            comment_count: self.comment_count,
            unresolved_count: self.unresolved_count,
            total_resolvable_count: self.total_resolvable_count,
            conversational_count: self.conversational_count,
            ci_status: self.ci_status,
            mergeable: self.mergeable,
            head_ref: self.head_ref.clone(),
            body: self.body.clone(),
            url: self.url.clone(),
            requested_reviewers: clone_strings(&self.requested_reviewers),
            reviewers: clone_reviewers(&self.reviewers),
            is_draft: self.is_draft,
            matched_queries: clone_strings(&self.matched_queries),
            last_seen_at: clone_opt_string(&self.last_seen_at),
            last_seen_unresolved_count: self.last_seen_unresolved_count,
            last_seen_total_resolvable_count: self.last_seen_total_resolvable_count,
            last_seen_conversational_count: self.last_seen_conversational_count,
            attention_state: self.attention_state.duplicate(),
        }
    }
}

/// Each item of `r` holds the same values as the item of `src` at the
/// matching position of `idx`.
pub open spec fn copies_at(r: Seq<PullRequest>, src: Seq<PullRequest>, idx: Seq<int>) -> bool {
    &&& r.len() == idx.len()
    &&& forall|i: int| 0 <= i < idx.len() ==> 0 <= #[trigger] idx[i] < src.len() && r[i].spec_same(src[idx[i]])
}

/// `r` is a copy of `src`, item by item.
pub open spec fn copies_of(r: Seq<PullRequest>, src: Seq<PullRequest>) -> bool {
    &&& r.len() == src.len()
    &&& forall|i: int| 0 <= i < src.len() ==> #[trigger] r[i].spec_same(src[i])
}

/// A copy of a pull request list.
pub fn clone_prs(v: &[PullRequest]) -> (r: Vec<PullRequest>)
    ensures
        copies_of(r@, v@),
{
    let mut out: Vec<PullRequest> = Vec::new();
    let mut i: usize = 0;
    while i < v.len()
        invariant
            i <= v.len(),
            out@.len() == i,
            forall|j: int| 0 <= j < i ==> #[trigger] out@[j].spec_same(v@[j]),
        decreases v.len() - i,
    {
        out.push(v[i].duplicate());
        i = i + 1;
    }
    out
}

/// A copy of a person reviewing list.
pub fn clone_reviewers(v: &Vec<Reviewer>) -> (r: Vec<Reviewer>)
    ensures
        r@ == v@,
{
    let mut out: Vec<Reviewer> = Vec::new();
    let mut i: usize = 0;
    while i < v.len()
        invariant
            i <= v.len(),
            out@ == v@.take(i as int),
        decreases v.len() - i,
    {
        out.push(v[i].duplicate());
        assert(v@.take(i as int).push(v@[i as int]) =~= v@.take(i + 1));
        i = i + 1;
    }
    assert(v@.take(v.len() as int) =~= v@);
    out
}

} // verus!
