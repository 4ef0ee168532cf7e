//! Pull requests as GitHub's API returns them, and their conversion into the
//! pull request model.
use vstd::prelude::*;
use crate::domain::attention::AttentionState;
use crate::domain::attention::initial_state_view;
use crate::domain::pr::{CIStatus, MergeableStatus, PRStatus, PullRequest, ReviewStatus, Reviewer};
use crate::util::text::{
    chars_of, push_char, push_chars, split_chars, split_on, str_eq, to_uppercase, spec_to_uppercase,
    views_of,
};

verus! {

/// A pull request node of GitHub's search or pull request query.
#[derive(Debug)]
pub struct RawPullRequest {
    pub id: String,
    pub number: u32,
    pub title: String,
    pub author: RawAuthor,
    pub repository: Option<RawRepository>,
    pub head_repository: Option<RawRepository>,
    pub state: String,
    pub created_at: String,
    pub updated_at: String,
    pub body: String,
    pub comments_count: Option<u32>,
    pub review_comments: Option<u32>,
    pub unresolved_count: Option<u32>,
    pub total_resolvable_count: Option<u32>,
    pub additions: Option<u32>,
    pub deletions: Option<u32>,
    pub review_decision: Option<String>,
    pub mergeable: Option<String>,
    pub merge_state_status: Option<String>,
    pub status_check_rollup: Option<RawStatusCheckRollup>,
    pub head_ref_oid: Option<String>,
    pub url: String,
    pub review_requests: Option<Vec<RawReviewRequest>>,
    pub latest_reviews: Option<Vec<RawReview>>,
    pub is_draft: bool,
}

/// A latest review: its author and state.
#[derive(Debug)]
pub struct RawReview {
    pub author: RawAuthor,
    pub state: String,
}

/// A pending review request.
#[derive(Debug)]
pub struct RawReviewRequest {
    pub requested_reviewer: Option<RawRequestedReviewer>,
}

/// Who a review was requested from (a team has no login).
#[derive(Debug)]
pub struct RawRequestedReviewer {
    pub typename: String,
    pub login: Option<String>,
}

/// An author's login.
#[derive(Debug)]
pub struct RawAuthor {
    pub login: String,
}

/// A repository's `owner/name`.
#[derive(Debug)]
pub struct RawRepository {
    pub name_with_owner: String,
}

/// A comment's node id.
#[derive(Debug)]
pub struct RawComment {
    pub id: String,
}

/// What a check of a rollup list says: its conclusion and its status, each
/// present when the check carries it as text.
#[derive(Debug)]
pub struct RawRollupEntry {
    pub conclusion: Option<String>,
    pub status: Option<String>,
}

/// The status check rollup: either a summary state or the list of checks.
#[derive(Debug)]
pub enum RawStatusCheckRollup {
    Summary { state: String },
    List(Vec<RawRollupEntry>),
}

/// A check run as the check-runs endpoint returns it.
#[derive(Debug)]
pub struct RawCheckRun {
    pub name: String,
    pub status: String,
    pub conclusion: Option<String>,
    pub url: String,
}

/// A timeline entry as the timeline endpoint returns it.
#[derive(Debug)]
pub struct RawTimelineEvent {
    pub node_id: Option<String>,
    pub typename: String,
    pub actor: Option<RawAuthor>,
    pub created_at: Option<String>,
    pub body: Option<String>,
    pub state: Option<String>,
    pub message: Option<String>,
    pub label: Option<RawLabel>,
}

/// A label's name.
#[derive(Debug)]
pub struct RawLabel {
    pub name: String,
}

/// A check concluded with something other than success, neutral or skipped.
pub open spec fn spec_entry_failed(e: RawRollupEntry) -> bool {
    e.conclusion matches Some(c) && c@ != "SUCCESS"@ && c@ != "NEUTRAL"@ && c@ != "SKIPPED"@
}

/// A check without a conclusion whose status is not "COMPLETED".
pub open spec fn spec_entry_pending(e: RawRollupEntry) -> bool {
    e.conclusion is None && (e.status matches Some(s) && s@ != "COMPLETED"@)
}

/// The state of a rollup: a summary's own state; for a list, "EXPECTED" when
/// empty, else "FAILURE" if a check failed, else "PENDING" if one is still
/// running, else "SUCCESS".
pub open spec fn spec_rollup_state(r: RawStatusCheckRollup) -> Seq<char> {
    match r {
        RawStatusCheckRollup::Summary { state } => state@,
        RawStatusCheckRollup::List(list) => if list@.len() == 0 {
            "EXPECTED"@
        } else if exists|i: int| 0 <= i < list@.len() && #[trigger] spec_entry_failed(list@[i]) {
            "FAILURE"@
        } else if exists|i: int| 0 <= i < list@.len() && #[trigger] spec_entry_pending(list@[i]) {
            "PENDING"@
        } else {
            "SUCCESS"@
        },
    }
}

/// A list of checks that all concluded with success, neutral or skipped
/// passes ("SUCCESS"); a list in which some check concluded with anything
/// else fails ("FAILURE"); an empty list is "EXPECTED".
pub proof fn lemma_rollup_list_state(list: Vec<RawRollupEntry>)
    ensures
        (list@.len() > 0 && forall|i: int| 0 <= i < list@.len() ==> (#[trigger] list@[i].conclusion matches Some(c)
            && (c@ == "SUCCESS"@ || c@ == "NEUTRAL"@ || c@ == "SKIPPED"@)))
            ==> spec_rollup_state(RawStatusCheckRollup::List(list)) == "SUCCESS"@,
        (exists|i: int| 0 <= i < list@.len() && (#[trigger] list@[i].conclusion matches Some(c)
            && c@ != "SUCCESS"@ && c@ != "NEUTRAL"@ && c@ != "SKIPPED"@))
            ==> spec_rollup_state(RawStatusCheckRollup::List(list)) == "FAILURE"@,
        list@.len() == 0 ==> spec_rollup_state(RawStatusCheckRollup::List(list)) == "EXPECTED"@,
{
    if exists|i: int| 0 <= i < list@.len() && (#[trigger] list@[i].conclusion matches Some(c)
            && c@ != "SUCCESS"@ && c@ != "NEUTRAL"@ && c@ != "SKIPPED"@) {
        let i = choose|i: int| 0 <= i < list@.len() && (#[trigger] list@[i].conclusion matches Some(c)
            && c@ != "SUCCESS"@ && c@ != "NEUTRAL"@ && c@ != "SKIPPED"@);
        assert(spec_entry_failed(list@[i]));
    }
}

fn entry_failed(e: &RawRollupEntry) -> (b: bool)
    ensures
        b == spec_entry_failed(*e),
{
    match &e.conclusion {
        Some(c) => !str_eq(c.as_str(), "SUCCESS") && !str_eq(c.as_str(), "NEUTRAL")
            && !str_eq(c.as_str(), "SKIPPED"),
        None => false,
    }
}

fn entry_pending(e: &RawRollupEntry) -> (b: bool)
    ensures
        b == spec_entry_pending(*e),
{
    match &e.conclusion {
        Some(_) => false,
        None => match &e.status {
            Some(s) => !str_eq(s.as_str(), "COMPLETED"),
            None => false,
        },
    }
}

impl RawStatusCheckRollup {
    /// The combined state of the rollup (see `spec_rollup_state`).
    pub fn state(&self) -> (r: String)
        ensures
            r@ == spec_rollup_state(*self),
    {
        match self {
            RawStatusCheckRollup::Summary { state } => state.clone(),
            RawStatusCheckRollup::List(list) => {
                if list.len() == 0 {
                    return String::from_str("EXPECTED");
                }
                let mut has_failure = false;
                let mut has_pending = false;
                let mut i: usize = 0;
                while i < list.len()
                    invariant
                        i <= list.len(),
                        has_failure == exists|j: int| 0 <= j < i && #[trigger] spec_entry_failed(list@[j]),
                        has_pending == exists|j: int| 0 <= j < i && #[trigger] spec_entry_pending(list@[j]),
                    decreases list.len() - i,
                {
                    if entry_failed(&list[i]) {
                        has_failure = true;
                    } else if entry_pending(&list[i]) {
                        has_pending = true;
                    }
                    assert(spec_entry_failed(list@[i as int]) ==> !spec_entry_pending(list@[i as int]));
                    i = i + 1;
                }
                if has_failure {
                    String::from_str("FAILURE")
                } else if has_pending {
                    String::from_str("PENDING")
                } else {
                    String::from_str("SUCCESS")
                }
            },
        }
    }
}

/// The logins that reviews were requested from, in order (teams skipped).
pub open spec fn spec_requested_logins(reqs: Seq<RawReviewRequest>) -> Seq<Seq<char>>
    decreases reqs.len(),
{
    if reqs.len() == 0 {
        Seq::empty()
    } else {
        let init = spec_requested_logins(reqs.drop_last());
        match reqs.last().requested_reviewer {
            Some(rr) => match rr.login {
                Some(l) => init.push(l@),
                None => init,
            },
            None => init,
        }
    }
}

/// The requested logins of an optional request list.
pub open spec fn spec_opt_requested_logins(reqs: Option<Vec<RawReviewRequest>>) -> Seq<Seq<char>> {
    match reqs {
        Some(v) => spec_requested_logins(v@),
        None => Seq::empty(),
    }
}

/// `login` already has an entry among the people reviewing.
pub open spec fn spec_has_login(acc: Seq<(Seq<char>, Seq<char>)>, login: Seq<char>) -> bool {
    exists|i: int| 0 <= i < acc.len() && #[trigger] acc[i].0 == login
}

/// Adds a "PENDING" entry for every requested login without one yet.
pub open spec fn spec_add_pending(acc: Seq<(Seq<char>, Seq<char>)>, logins: Seq<Seq<char>>) -> Seq<(Seq<char>, Seq<char>)>
    decreases logins.len(),
{
    if logins.len() == 0 {
        acc
    } else {
        let a = spec_add_pending(acc, logins.drop_last());
        if spec_has_login(a, logins.last()) { a } else { a.push((logins.last(), "PENDING"@)) }
    }
}

/// The latest reviews as (login, state) pairs.
pub open spec fn spec_latest_pairs(latest: Option<Vec<RawReview>>) -> Seq<(Seq<char>, Seq<char>)> {
    match latest {
        Some(v) => v@.map_values(|r: RawReview| (r.author.login@, r.state@)),
        None => Seq::empty(),
    }
}

/// A person reviewing list as (login, status) pairs.
pub open spec fn reviewer_pairs(v: Seq<Reviewer>) -> Seq<(Seq<char>, Seq<char>)> {
    v.map_values(|r: Reviewer| (r.login@, r.status@))
}

/// The repository name when present and not empty.
pub open spec fn spec_nonempty_repo(r: Option<RawRepository>) -> Option<Seq<char>> {
    match r {
        Some(x) => if x.name_with_owner@.len() > 0 { Some(x.name_with_owner@) } else { None },
        None => None,
    }
}

/// The `owner/repo` of a pull request: the repository's name, else the head
/// repository's, else the fourth and fifth `/`-separated pieces of the URL,
/// else "unknown".
pub open spec fn spec_repo(raw: RawPullRequest) -> Seq<char> {
    match spec_nonempty_repo(raw.repository) {
        Some(n) => n,
        None => match spec_nonempty_repo(raw.head_repository) {
            Some(n) => n,
            None => {
                let parts = split_on(raw.url@, '/');
                if parts.len() >= 5 { parts[3] + "/"@ + parts[4] } else { "unknown"@ }
            },
        },
    }
}

/// The pull request status for a state text (compared after uppercasing).
pub open spec fn spec_status(state: Seq<char>) -> PRStatus {
    spec_status_upper(spec_to_uppercase(state))
}

/// The status for an uppercased state name: "OPEN", "MERGED", and closed
/// for anything else.
pub open spec fn spec_status_upper(up: Seq<char>) -> PRStatus {
    if up == "OPEN"@ { PRStatus::Open } else if up == "MERGED"@ { PRStatus::Merged } else { PRStatus::Closed }
}

/// The review status for a review decision.
pub open spec fn spec_review_status(d: Option<String>) -> ReviewStatus {
    match d {
        Some(s) => if s@ == "APPROVED"@ {
            ReviewStatus::Approved
        } else if s@ == "CHANGES_REQUESTED"@ {
            ReviewStatus::ChangesRequested
        } else {
            ReviewStatus::Pending
        },
        None => ReviewStatus::Pending,
    }
}

/// The mergeable status for a mergeable text.
pub open spec fn spec_mergeable(m: Option<String>) -> MergeableStatus {
    match m {
        Some(s) => if s@ == "MERGEABLE"@ {
            MergeableStatus::Mergeable
        } else if s@ == "CONFLICTING"@ {
            MergeableStatus::Conflicting
        } else {
            MergeableStatus::Unknown
        },
        None => MergeableStatus::Unknown,
    }
}

/// The CI status for a rollup (its state compared after uppercasing).
pub open spec fn spec_ci_status(r: Option<RawStatusCheckRollup>) -> CIStatus {
    match r {
        Some(x) => spec_ci_status_upper(spec_to_uppercase(spec_rollup_state(x))),
        None => CIStatus::Skipped,
    }
}

/// The CI status for an uppercased rollup state: "SUCCESS" passes,
/// "FAILURE" and "ERROR" fail, "PENDING" is pending, anything else skipped.
pub open spec fn spec_ci_status_upper(s: Seq<char>) -> CIStatus {
    if s == "SUCCESS"@ {
        CIStatus::Passing
    } else if s == "FAILURE"@ || s == "ERROR"@ {
        CIStatus::Failing
    } else if s == "PENDING"@ {
        CIStatus::Pending
    } else {
        CIStatus::Skipped
    }
}

/// The value of an optional count, 0 when absent.
pub open spec fn count_or_zero(c: Option<u32>) -> u32 {
    match c {
        Some(n) => n,
        None => 0,
    }
}

fn opt_u32(c: Option<u32>) -> (r: u32)
    ensures
        r == count_or_zero(c),
{
    match c {
        Some(n) => n,
        None => 0,
    }
}

/// The pull request converted from an API node.
pub open spec fn spec_converted(raw: RawPullRequest, pr: PullRequest) -> bool {
    &&& pr.id@ == raw.id@
    &&& pr.number == raw.number
    &&& pr.title@ == raw.title@
    &&& pr.author@ == raw.author.login@
    &&& pr.repo@ == spec_repo(raw)
    &&& pr.status == spec_status(raw.state@)
    &&& pr.created_at@ == raw.created_at@
    &&& pr.updated_at@ == raw.updated_at@
    &&& pr.additions == count_or_zero(raw.additions)
    &&& pr.deletions == count_or_zero(raw.deletions)
    &&& pr.review_status == spec_review_status(raw.review_decision)
    &&& pr.comment_count == count_or_zero(raw.comments_count) + count_or_zero(raw.review_comments)
    &&& pr.unresolved_count == count_or_zero(raw.unresolved_count)
    &&& pr.total_resolvable_count == count_or_zero(raw.total_resolvable_count)
    &&& pr.conversational_count == count_or_zero(raw.comments_count)
    &&& pr.mergeable == spec_mergeable(raw.mergeable)
    &&& pr.ci_status == spec_ci_status(raw.status_check_rollup)
    &&& pr.head_ref@ == (match raw.head_ref_oid { Some(h) => h@, None => Seq::<char>::empty() })
    &&& pr.body@ == raw.body@
    &&& pr.url@ == raw.url@
    &&& pr.requested_reviewers@.map_values(|s: String| s@) == spec_opt_requested_logins(raw.review_requests)
    &&& reviewer_pairs(pr.reviewers@) == spec_add_pending(spec_latest_pairs(raw.latest_reviews),
            spec_opt_requested_logins(raw.review_requests))
    &&& pr.is_draft == raw.is_draft
    &&& pr.matched_queries@.len() == 0
    &&& pr.last_seen_at is None
    &&& pr.last_seen_unresolved_count == 0
    &&& pr.last_seen_total_resolvable_count == 0
    &&& pr.last_seen_conversational_count == 0
    &&& pr.attention_state@ == initial_state_view()
}

fn requested_logins(reqs: &Option<Vec<RawReviewRequest>>) -> (r: Vec<String>)
    ensures
        r@.map_values(|s: String| s@) == spec_opt_requested_logins(*reqs),
{
    let mut out: Vec<String> = Vec::new();
    match reqs {
        None => {
            assert(out@.map_values(|s: String| s@) =~= Seq::<Seq<char>>::empty());
        },
        Some(v) => {
            let mut i: usize = 0;
            while i < v.len()
                invariant
                    i <= v.len(),
                    out@.map_values(|s: String| s@) == spec_requested_logins(v@.take(i as int)),
                decreases v.len() - i,
            {
                assert(v@.take(i + 1).drop_last() =~= v@.take(i as int));
                assert(v@.take(i + 1).last() == v@[i as int]);
                let ghost before = out@;
                match &v[i].requested_reviewer {
                    Some(rr) => match &rr.login {
                        Some(l) => {
                            out.push(l.clone());
                            assert(out@.map_values(|s: String| s@) =~= before.map_values(|s: String| s@).push(l@));
                        },
                        None => {},
                    },
                    None => {},
                }
                i = i + 1;
            }
            assert(v@.take(v.len() as int) =~= v@);
        },
    }
    out
}

fn has_login(acc: &Vec<Reviewer>, login: &str) -> (b: bool)
    ensures
        b == spec_has_login(reviewer_pairs(acc@), login@),
{
    let mut i: usize = 0;
    while i < acc.len()
        invariant
            i <= acc.len(),
            forall|j: int| 0 <= j < i ==> #[trigger] acc@[j].login@ != login@,
        decreases acc.len() - i,
    {
        if str_eq(acc[i].login.as_str(), login) {
            assert(reviewer_pairs(acc@)[i as int].0 == login@);
            return true;
        }
        i = i + 1;
    }
    assert forall|j: int| 0 <= j < reviewer_pairs(acc@).len() implies #[trigger] reviewer_pairs(acc@)[j].0 != login@ by {
        assert(acc@[j].login@ != login@);
    }
    false
}

fn build_reviewers(latest: &Option<Vec<RawReview>>, logins: &Vec<String>) -> (r: Vec<Reviewer>)
    ensures
        reviewer_pairs(r@) == spec_add_pending(spec_latest_pairs(*latest), logins@.map_values(|s: String| s@)),
{
    let mut out: Vec<Reviewer> = Vec::new();
    match latest {
        Some(v) => {
            let mut i: usize = 0;
            while i < v.len()
                invariant
                    i <= v.len(),
                    reviewer_pairs(out@) == v@.take(i as int).map_values(|r: RawReview| (r.author.login@, r.state@)),
                decreases v.len() - i,
            {
                let ghost before = out@;
                let rv = Reviewer { login: v[i].author.login.clone(), status: v[i].state.clone() };
                assert(rv.login@ == v@[i as int].author.login@ && rv.status@ == v@[i as int].state@);
                out.push(rv);
                assert(out@ == before.push(rv));
                assert(reviewer_pairs(out@) =~= reviewer_pairs(before).push((rv.login@, rv.status@)));
                assert(v@.take(i + 1) =~= v@.take(i as int).push(v@[i as int]));
                assert(reviewer_pairs(out@) =~= v@.take(i + 1).map_values(|r: RawReview| (r.author.login@, r.state@)));
                i = i + 1;
            }
            assert(v@.take(v.len() as int) =~= v@);
        },
        None => {
            assert(reviewer_pairs(out@) =~= Seq::<(Seq<char>, Seq<char>)>::empty());
        },
    }
    let ghost base = reviewer_pairs(out@);
    let ghost ls = logins@.map_values(|s: String| s@);
    let mut k: usize = 0;
    while k < logins.len()
        invariant
            k <= logins.len(),
            ls == logins@.map_values(|s: String| s@),
            reviewer_pairs(out@) == spec_add_pending(base, ls.take(k as int)),
        decreases logins.len() - k,
    {
        assert(ls.take(k + 1).drop_last() =~= ls.take(k as int));
        assert(ls.take(k + 1).last() == logins@[k as int]@);
        if !has_login(&out, logins[k].as_str()) {
            let ghost before = reviewer_pairs(out@);
            out.push(Reviewer { login: logins[k].clone(), status: String::from_str("PENDING") });
            assert(reviewer_pairs(out@) =~= before.push((logins@[k as int]@, "PENDING"@)));
        }
        k = k + 1;
    }
    assert(ls.take(logins.len() as int) =~= ls);
    out
}

fn nonempty_repo(r: &Option<RawRepository>) -> (o: Option<String>)
    ensures
        match o {
            Some(s) => spec_nonempty_repo(*r) == Some(s@),
            None => spec_nonempty_repo(*r) is None,
        },
{
    match r {
        Some(x) => {
            let n = chars_of(x.name_with_owner.as_str());
            if n.len() > 0 { Some(x.name_with_owner.clone()) } else { None }
        },
        None => None,
    }
}

fn repo_of(raw: &RawPullRequest) -> (r: String)
    ensures
        r@ == spec_repo(*raw),
{
    if let Some(n) = nonempty_repo(&raw.repository) {
        return n;
    }
    if let Some(n) = nonempty_repo(&raw.head_repository) {
        return n;
    }
    let url = chars_of(raw.url.as_str());
    let parts = split_chars(&url, '/');
    if parts.len() >= 5 {
        assert(views_of(parts@)[3] == parts@[3]@);
        assert(views_of(parts@)[4] == parts@[4]@);
        let mut out = String::new();
        push_chars(&mut out, &parts[3]);
        push_char(&mut out, '/');
        push_chars(&mut out, &parts[4]);
        proof { reveal_strlit("/"); }
        assert(out@ =~= parts@[3]@ + "/"@ + parts@[4]@);
        out
    } else {
        String::from_str("unknown")
    }
}

fn status_of(state: &str) -> (s: PRStatus)
    ensures
        s == spec_status(state@),
{
    let up = to_uppercase(state);
    status_from_upper(up.as_str())
}

/// The status for an uppercased state name (see `spec_status_upper`).
pub fn status_from_upper(up: &str) -> (s: PRStatus)
    ensures
        s == spec_status_upper(up@),
{
    if str_eq(up, "OPEN") {
        PRStatus::Open
    } else if str_eq(up, "MERGED") {
        PRStatus::Merged
    } else {
        PRStatus::Closed
    }
}

/// The CI status for an uppercased rollup state (see `spec_ci_status_upper`).
pub fn ci_status_from_upper(up: &str) -> (s: CIStatus)
    ensures
        s == spec_ci_status_upper(up@),
{
    if str_eq(up, "SUCCESS") {
        CIStatus::Passing
    } else if str_eq(up, "FAILURE") || str_eq(up, "ERROR") {
        CIStatus::Failing
    } else if str_eq(up, "PENDING") {
        CIStatus::Pending
    } else {
        CIStatus::Skipped
    }
}

fn review_status_of(d: &Option<String>) -> (s: ReviewStatus)
    ensures
        s == spec_review_status(*d),
{
    match d {
        Some(x) => if str_eq(x.as_str(), "APPROVED") {
            ReviewStatus::Approved
        } else if str_eq(x.as_str(), "CHANGES_REQUESTED") {
            ReviewStatus::ChangesRequested
        } else {
            ReviewStatus::Pending
        },
        None => ReviewStatus::Pending,
    }
}

fn mergeable_of(m: &Option<String>) -> (s: MergeableStatus)
    ensures
        s == spec_mergeable(*m),
{
    match m {
        Some(x) => if str_eq(x.as_str(), "MERGEABLE") {
            MergeableStatus::Mergeable
        } else if str_eq(x.as_str(), "CONFLICTING") {
            MergeableStatus::Conflicting
        } else {
            MergeableStatus::Unknown
        },
        None => MergeableStatus::Unknown,
    }
}

fn ci_status_of(r: &Option<RawStatusCheckRollup>) -> (s: CIStatus)
    ensures
        s == spec_ci_status(*r),
{
    match r {
        Some(x) => {
            let st = x.state();
            let up = to_uppercase(st.as_str());
            ci_status_from_upper(up.as_str())
        },
        None => CIStatus::Skipped,
    }
}

impl PullRequest {
    /// Converts an API node into a pull request: counts default to 0, the
    /// people reviewing are the latest reviews followed by a "PENDING" entry for each
    /// requested login without a review, the requested people reviewing are the
    /// requested logins, and nothing has been seen yet.
    pub fn from_raw(raw: RawPullRequest) -> (pr: PullRequest)
        requires
            count_or_zero(raw.comments_count) + count_or_zero(raw.review_comments) <= u32::MAX,
        ensures
            spec_converted(raw, pr),
    {
        let requested_reviewers = requested_logins(&raw.review_requests);
        let reviewers = build_reviewers(&raw.latest_reviews, &requested_reviewers);
        let repo = repo_of(&raw);
        let status = status_of(raw.state.as_str());
        let review_status = review_status_of(&raw.review_decision);
        let mergeable = mergeable_of(&raw.mergeable);
        let ci_status = ci_status_of(&raw.status_check_rollup);
        let comments = opt_u32(raw.comments_count);
        let head_ref = match &raw.head_ref_oid {
            Some(h) => h.clone(),
            None => String::new(),
        };
        PullRequest {
            id: raw.id,
            number: raw.number,
            title: raw.title,
            author: raw.author.login,
            repo,
            status,
            created_at: raw.created_at,
            updated_at: raw.updated_at,
            additions: opt_u32(raw.additions),
            deletions: opt_u32(raw.deletions),
            review_status,
            comment_count: comments + opt_u32(raw.review_comments),
            unresolved_count: opt_u32(raw.unresolved_count),
            total_resolvable_count: opt_u32(raw.total_resolvable_count),
            conversational_count: comments,
            ci_status,
            mergeable,
            head_ref,
            body: raw.body,
            url: raw.url,
            requested_reviewers,
            reviewers,
            is_draft: raw.is_draft,
            matched_queries: Vec::new(),
            last_seen_at: None,
            last_seen_unresolved_count: 0,
            last_seen_total_resolvable_count: 0,
            last_seen_conversational_count: 0,
            attention_state: AttentionState::default(),
        }
    }
}

} // verus!
