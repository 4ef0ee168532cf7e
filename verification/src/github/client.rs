//! The GitHub client's state and the mapping of API timeline entries.
use vstd::prelude::*;
use crate::domain::pr::TimelineEvent;
use crate::github::models::{RawTimelineEvent, RawPullRequest, count_or_zero, spec_converted};
use crate::domain::pr::PullRequest;
use crate::github::rate_limit::RateLimitTracker;
use crate::util::text::{
    str_eq, push_str, to_uppercase, spec_to_uppercase, chars_of, find_char, first_index_of, slice_chars,
    string_from_chars,
};

verus! {

/// The client that talks to GitHub through the `gh` command; it keeps the
/// last rate limit it saw.
#[derive(Debug)]
pub struct GhCliClient {
    pub rate_limit: RateLimitTracker,
}

impl GhCliClient {
    /// A client that has not made any call yet.
    pub fn new() -> (r: GhCliClient)
        ensures
            r.rate_limit.spec_status().remaining == 5000,
            r.rate_limit.spec_status().limit == 5000,
            r.rate_limit.spec_status().reset_at == 0,
    {
        GhCliClient { rate_limit: RateLimitTracker::new() }
    }
}

/// The event type name for an API event name; unknown names pass through.
pub open spec fn spec_event_type(name: Seq<char>) -> Seq<char> {
    if name == "commented"@ { "IssueComment"@ }
    else if name == "reviewed"@ { "PullRequestReview"@ }
    else if name == "committed"@ { "Commit"@ }
    else if name == "merged"@ { "MergedEvent"@ }
    else if name == "closed"@ { "ClosedEvent"@ }
    else if name == "reopened"@ { "ReopenedEvent"@ }
    else if name == "labeled"@ { "LabeledEvent"@ }
    else if name == "unlabeled"@ { "UnlabeledEvent"@ }
    else { name }
}

/// The text shown for a review: its uppercased state, then ": " and the
/// review's text when it has one.
pub open spec fn spec_review_content(upper_state: Seq<char>, body: Option<String>) -> Seq<char> {
    upper_state + match body { Some(b) => ": "@ + b@, None => Seq::<char>::empty() }
}

/// The text shown for a review (see `spec_review_content`).
pub fn review_content(upper_state: &str, body: &Option<String>) -> (r: String)
    ensures
        r@ == spec_review_content(upper_state@, *body),
{
    let mut out = String::from_str(upper_state);
    match body {
        Some(b) => {
            push_str(&mut out, ": ");
            push_str(&mut out, b.as_str());
            assert(out@ =~= upper_state@ + (": "@ + b@));
        },
        None => {
            assert(out@ =~= upper_state@ + Seq::<char>::empty());
        },
    }
    out
}

/// The text shown for an entry of the given event type.
pub open spec fn spec_event_content(r: RawTimelineEvent, event_type: Seq<char>) -> Option<Seq<char>> {
    if event_type == "IssueComment"@ {
        match r.body { Some(b) => Some(b@), None => None }
    } else if event_type == "PullRequestReview"@ {
        let state = spec_to_uppercase(match r.state { Some(s) => s@, None => "COMMENTED"@ });
        Some(spec_review_content(state, r.body))
    } else if event_type == "MergedEvent"@ {
        Some("merged this pull request"@)
    } else if event_type == "ClosedEvent"@ {
        Some("closed this pull request"@)
    } else if event_type == "ReopenedEvent"@ {
        Some("reopened this pull request"@)
    } else if event_type == "LabeledEvent"@ {
        match r.label { Some(l) => Some("added label: "@ + l.name@), None => None }
    } else if event_type == "UnlabeledEvent"@ {
        match r.label { Some(l) => Some("removed label: "@ + l.name@), None => None }
    } else if event_type == "Commit"@ {
        match r.message { Some(m) => Some(m@), None => None }
    } else {
        None
    }
}

fn event_type_of(name: &str) -> (r: &str)
    ensures
        r@ == spec_event_type(name@),
{
    if str_eq(name, "commented") { "IssueComment" }
    else if str_eq(name, "reviewed") { "PullRequestReview" }
    else if str_eq(name, "committed") { "Commit" }
    else if str_eq(name, "merged") { "MergedEvent" }
    else if str_eq(name, "closed") { "ClosedEvent" }
    else if str_eq(name, "reopened") { "ReopenedEvent" }
    else if str_eq(name, "labeled") { "LabeledEvent" }
    else if str_eq(name, "unlabeled") { "UnlabeledEvent" }
    else { name }
}

fn prefixed(prefix: &str, rest: &str) -> (r: String)
    ensures
        r@ == prefix@ + rest@,
{
    let mut s = String::new();
    push_str(&mut s, prefix);
    push_str(&mut s, rest);
    assert(s@ =~= prefix@ + rest@);
    s
}

fn content_of(r: &RawTimelineEvent, event_type: &str) -> (c: Option<String>)
    ensures
        match c {
            Some(s) => spec_event_content(*r, event_type@) == Some(s@),
            None => spec_event_content(*r, event_type@) is None,
        },
{
    if str_eq(event_type, "IssueComment") {
        match &r.body { Some(b) => Some(b.clone()), None => None }
    } else if str_eq(event_type, "PullRequestReview") {
        let raw_state = match &r.state { Some(s) => s.clone(), None => String::from_str("COMMENTED") };
        let up = to_uppercase(raw_state.as_str());
        Some(review_content(up.as_str(), &r.body))
    } else if str_eq(event_type, "MergedEvent") {
        Some(String::from_str("merged this pull request"))
    } else if str_eq(event_type, "ClosedEvent") {
        Some(String::from_str("closed this pull request"))
    } else if str_eq(event_type, "ReopenedEvent") {
        Some(String::from_str("reopened this pull request"))
    } else if str_eq(event_type, "LabeledEvent") {
        match &r.label { Some(l) => Some(prefixed("added label: ", l.name.as_str())), None => None }
    } else if str_eq(event_type, "UnlabeledEvent") {
        match &r.label { Some(l) => Some(prefixed("removed label: ", l.name.as_str())), None => None }
    } else if str_eq(event_type, "Commit") {
        match &r.message { Some(m) => Some(m.clone()), None => None }
    } else {
        None
    }
}

/// The timeline event for an API timeline entry: its type renamed, its
/// text chosen by type, "unknown" for a missing actor and empty id and time
/// where they are missing.
pub open spec fn spec_mapped_event(r: RawTimelineEvent, e: TimelineEvent) -> bool {
    let et = spec_event_type(r.typename@);
    &&& e.id@ == (match r.node_id { Some(n) => n@, None => Seq::<char>::empty() })
    &&& e.event_type@ == et
    &&& e.actor@ == (match r.actor { Some(a) => a.login@, None => "unknown"@ })
    &&& e.created_at@ == (match r.created_at { Some(t) => t@, None => Seq::<char>::empty() })
    &&& (match e.content { Some(c) => spec_event_content(r, et) == Some(c@), None => spec_event_content(r, et) is None })
    &&& e.reviewer_login is None
}

/// Maps an API timeline entry to a timeline event (see `spec_mapped_event`).
pub fn map_timeline_event(r: RawTimelineEvent) -> (e: TimelineEvent)
    ensures
        spec_mapped_event(r, e),
{
    let et = event_type_of(r.typename.as_str());
    let content = content_of(&r, et);
    let event_type = String::from_str(et);
    TimelineEvent {
        id: match r.node_id { Some(n) => n, None => String::new() },
        event_type,
        actor: match r.actor { Some(a) => a.login, None => String::from_str("unknown") },
        created_at: match r.created_at { Some(t) => t, None => String::new() },
        content,
        reviewer_login: None,
    }
}

/// The number of entries that say "not resolved".
pub open spec fn count_unresolved(s: Seq<Option<bool>>) -> nat
    decreases s.len(),
{
    if s.len() == 0 {
        0
    } else {
        count_unresolved(s.drop_last()) + if s.last() == Some(false) { 1nat } else { 0nat }
    }
}

proof fn lemma_count_unresolved_le(s: Seq<Option<bool>>)
    ensures
        count_unresolved(s) <= s.len(),
    decreases s.len(),
{
    if s.len() > 0 {
        lemma_count_unresolved_le(s.drop_last());
    }
}

/// The number of review threads and of those not resolved (a thread counts
/// as unresolved only where it says so).
pub fn thread_counts(is_resolved: &Vec<Option<bool>>) -> (r: (u64, u64))
    ensures
        r.0 == is_resolved@.len(),
        r.1 == count_unresolved(is_resolved@),
{
    let mut unresolved: u64 = 0;
    let mut i: usize = 0;
    while i < is_resolved.len()
        invariant
            i <= is_resolved.len(),
            unresolved == count_unresolved(is_resolved@.take(i as int)),
            unresolved <= i,
        decreases is_resolved.len() - i,
    {
        assert(is_resolved@.take(i + 1).drop_last() =~= is_resolved@.take(i as int));
        proof { lemma_count_unresolved_le(is_resolved@.take(i as int)); }
        if is_resolved[i] == Some(false) {
            unresolved = unresolved + 1;
        }
        i = i + 1;
    }
    assert(is_resolved@.take(is_resolved.len() as int) =~= is_resolved@);
    (is_resolved.len() as u64, unresolved)
}

/// A node of a search reply as read: null, decoded, or not decodable (with
/// the reason).
pub enum NodeRead {
    Null,
    Decoded(RawPullRequest),
    Undecodable(String),
}

/// A search reply as read from GitHub: text that is no JSON (with the
/// parser's reason), or a JSON value with the text of its `errors` member,
/// if it has one, and its list of nodes (`None` where the reply holds no
/// array of nodes), read in order up to the first node that could not be
/// decoded.
pub enum SearchReply {
    NotJson(String),
    Json { errors: Option<String>, nodes: Option<Vec<NodeRead>> },
}

/// Why a search reply gives no pull requests.
#[derive(Debug, PartialEq, Eq)]
pub enum ReplyError {
    /// The reply is no JSON (the parser's reason).
    NotJson(String),
    /// GitHub reported errors (their text).
    GraphQl(String),
    /// The reply holds no array of nodes.
    Unexpected,
    /// A node could not be decoded (the reason).
    Undecodable(String),
}

/// The number of pull requests a search asks for: the limit given, or 100.
pub open spec fn spec_page_size(limit: Option<u32>) -> u32 {
    match limit {
        Some(n) => n,
        None => 100,
    }
}

/// The number of pull requests a search asks for (see `spec_page_size`).
pub fn page_size(limit: Option<u32>) -> (r: u32)
    ensures
        r == spec_page_size(limit),
{
    match limit {
        Some(n) => n,
        None => 100,
    }
}

/// The decoded nodes, in order.
pub open spec fn present_nodes(ns: Seq<NodeRead>) -> Seq<RawPullRequest>
    decreases ns.len(),
{
    if ns.len() == 0 {
        Seq::empty()
    } else {
        match ns.last() {
            NodeRead::Decoded(r) => present_nodes(ns.drop_last()).push(r),
            _ => present_nodes(ns.drop_last()),
        }
    }
}

/// The reason of the first node that could not be decoded, if any.
pub open spec fn first_undecodable(ns: Seq<NodeRead>) -> Option<String>
    decreases ns.len(),
{
    if ns.len() == 0 {
        None
    } else {
        match first_undecodable(ns.drop_last()) {
            Some(m) => Some(m),
            None => match ns.last() {
                NodeRead::Undecodable(m) => Some(m),
                _ => None,
            },
        }
    }
}

/// Each decoded node's comment counts add up within 32 bits.
pub open spec fn counts_fit(ns: Seq<NodeRead>) -> bool {
    forall|i: int| 0 <= i < ns.len() ==> (#[trigger] ns[i] matches NodeRead::Decoded(r)
        ==> count_or_zero(r.comments_count) + count_or_zero(r.review_comments) <= u32::MAX)
}

/// The pull requests of a search reply: an error when the reply is no
/// JSON, when GitHub reported errors, when it holds no array of nodes, or
/// when a node could not be decoded (the first such); otherwise the decoded
/// nodes converted, in order, the null ones skipped.
pub fn search_results(reply: SearchReply) -> (r: Result<Vec<PullRequest>, ReplyError>)
    requires
        reply matches SearchReply::Json { nodes: Some(ns), .. } ==> counts_fit(ns@),
    ensures
        match reply {
            SearchReply::NotJson(e) => r == Err::<Vec<PullRequest>, ReplyError>(ReplyError::NotJson(e)),
            SearchReply::Json { errors: Some(e), .. } => r == Err::<Vec<PullRequest>, ReplyError>(
                ReplyError::GraphQl(e)),
            SearchReply::Json { errors: None, nodes: None } => r == Err::<Vec<PullRequest>, ReplyError>(
                ReplyError::Unexpected),
            SearchReply::Json { errors: None, nodes: Some(ns) } => match first_undecodable(ns@) {
                Some(m) => r == Err::<Vec<PullRequest>, ReplyError>(ReplyError::Undecodable(m)),
                None => r matches Ok(prs) && prs@.len() == present_nodes(ns@).len()
                    && forall|i: int| 0 <= i < prs@.len() ==> spec_converted(present_nodes(ns@)[i], #[trigger] prs@[i]),
            },
        },
{
    let ghost rp = reply;
    let nodes = match reply {
        SearchReply::NotJson(e) => return Err(ReplyError::NotJson(e)),
        SearchReply::Json { errors: Some(e), .. } => return Err(ReplyError::GraphQl(e)),
        SearchReply::Json { errors: None, nodes: None } => return Err(ReplyError::Unexpected),
        SearchReply::Json { errors: None, nodes: Some(ns) } => ns,
    };
    let ghost all = nodes@;
    assert(rp matches SearchReply::Json { errors: None, nodes: Some(ns) } && ns@ == all);
    let mut rest = nodes;
    let mut prs: Vec<PullRequest> = Vec::new();
    let mut i: usize = 0;
    assert(all.len() == rest.len());
    while rest.len() > 0
        invariant
            rp == reply,
            rp matches SearchReply::Json { errors: None, nodes: Some(ns) } && ns@ == all,
            i + rest@.len() == all.len(),
            all.len() <= usize::MAX,
            rest@ == all.skip(i as int),
            counts_fit(all),
            first_undecodable(all.take(i as int)) is None,
            prs@.len() == present_nodes(all.take(i as int)).len(),
            forall|k: int| 0 <= k < prs@.len() ==> spec_converted(present_nodes(all.take(i as int))[k], #[trigger] prs@[k]),
        decreases rest.len(),
    {
        let ghost before = prs@;
        let ghost rb = rest@;
        let node = rest.remove(0);
        proof {
            assert(node == rb[0] && rb[0] == all[i as int]);
            assert(rest@ =~= all.skip(i + 1));
            assert(all.take(i + 1).drop_last() =~= all.take(i as int));
            assert(all.take(i + 1).last() == all[i as int]);
        }
        match node {
            NodeRead::Decoded(raw) => {
                proof {
                    assert(all[i as int] matches NodeRead::Decoded(r) ==> count_or_zero(r.comments_count)
                        + count_or_zero(r.review_comments) <= u32::MAX);
                }
                prs.push(PullRequest::from_raw(raw));
                proof {
                    assert forall|k: int| 0 <= k < prs@.len() implies spec_converted(
                        present_nodes(all.take(i + 1))[k], #[trigger] prs@[k]) by {
                        if k < before.len() {
                            assert(prs@[k] == before[k]);
                        }
                    }
                }
            },
            NodeRead::Undecodable(m) => {
                proof {
                    assert(first_undecodable(all.take(i + 1)) == Some(m));
                    lemma_first_undecodable_prefix(all, i as int + 1);
                }
                return Err(ReplyError::Undecodable(m));
            },
            NodeRead::Null => {},
        }
        i = i + 1;
    }
    assert(all.take(all.len() as int) =~= all);
    Ok(prs)
}

/// The first node that could not be decoded in a prefix is the first one
/// of the whole list.
proof fn lemma_first_undecodable_prefix(ns: Seq<NodeRead>, k: int)
    requires
        0 <= k <= ns.len(),
        first_undecodable(ns.take(k)) is Some,
    ensures
        first_undecodable(ns) == first_undecodable(ns.take(k)),
    decreases ns.len() - k,
{
    if k < ns.len() {
        assert(ns.take(k + 1).drop_last() =~= ns.take(k));
        lemma_first_undecodable_prefix(ns, k + 1);
    } else {
        assert(ns.take(k) =~= ns);
    }
}

/// The owner and the name of a repository written "owner/name": the text
/// before and after its first "/", or `None` without one.
pub open spec fn spec_split_repo(repo: Seq<char>) -> Option<(Seq<char>, Seq<char>)> {
    match first_index_of(repo, '/') {
        Some(k) => Some((repo.take(k), repo.skip(k + 1))),
        None => None,
    }
}

/// The owner and the name of a repository (see `spec_split_repo`).
pub fn split_repo(repo: &str) -> (r: Option<(String, String)>)
    ensures
        match spec_split_repo(repo@) {
            Some((o, n)) => r matches Some(p) && p.0@ == o && p.1@ == n,
            None => r is None,
        },
{
    let cs = chars_of(repo);
    match find_char(&cs, '/') {
        Some(k) => {
            let owner = slice_chars(&cs, 0, k);
            let name = slice_chars(&cs, k + 1, cs.len());
            assert(owner@ =~= repo@.take(k as int));
            assert(name@ =~= repo@.skip(k + 1));
            Some((string_from_chars(&owner), string_from_chars(&name)))
        },
        None => None,
    }
}

} // verus!
