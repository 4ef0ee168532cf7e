//! The order of the pull request list: first by the grouping, then by the
//! sort mode, keeping the earlier order among equals.
use vstd::prelude::*;
use crate::app::SortMode;
use crate::config::GroupMode;
use crate::domain::pr::{PullRequest, copies_at};
use crate::domain::rules::{spec_needs_attention, needs_attention};
use crate::util::text::{lex_lt, str_lt, str_eq, lemma_lex_lt_total, lemma_lex_lt_trans};

verus! {

/// Where `a` stands against `b` in the string order: -1 before, 0 equal, 1 after.
pub open spec fn text_order(a: Seq<char>, b: Seq<char>) -> int {
    if lex_lt(a, b) { -1 } else if lex_lt(b, a) { 1 } else { 0 }
}

/// Where `a` stands against `b` when `true` comes first.
pub open spec fn true_first(a: bool, b: bool) -> int {
    if a == b { 0 } else if a { -1 } else { 1 }
}

/// The first decision, or the second where the first is a tie.
pub open spec fn then_order(first: int, second: int) -> int {
    if first != 0 { first } else { second }
}

/// The grouping's part of the order: by repository, author or status label
/// (ascending), the user's own pull requests first, or no preference.
pub open spec fn group_order(a: PullRequest, b: PullRequest, mode: GroupMode, user: Seq<char>) -> int {
    match mode {
        GroupMode::Ungrouped => 0,
        GroupMode::Repo => text_order(a.repo@, b.repo@),
        GroupMode::Author => text_order(a.author@, b.author@),
        GroupMode::Status => text_order(a.status.spec_label(), b.status.spec_label()),
        GroupMode::MyVsOther => true_first(a.author@ == user, b.author@ == user),
    }
}

/// The sort mode's part of the order: newest update or creation first,
/// repository ascending, or those needing attention first and then newest
/// update first.
pub open spec fn secondary_order(a: PullRequest, b: PullRequest, sort: SortMode, user: Seq<char>) -> int {
    match sort {
        SortMode::Updated => text_order(b.updated_at@, a.updated_at@),
        SortMode::Created => text_order(b.created_at@, a.created_at@),
        SortMode::Repo => text_order(a.repo@, b.repo@),
        SortMode::Priority => then_order(
            true_first(spec_needs_attention(a, user), spec_needs_attention(b, user)),
            text_order(b.updated_at@, a.updated_at@),
        ),
    }
}

/// Where `a` stands against `b` in the list: the grouping decides, and the
/// sort mode breaks its ties.
#[verifier::opaque]
pub open spec fn pr_order(a: PullRequest, b: PullRequest, mode: GroupMode, sort: SortMode, user: Seq<char>) -> int {
    then_order(group_order(a, b, mode, user), secondary_order(a, b, sort, user))
}

/// `p` lists each of `0..n` once.
pub open spec fn is_permutation(p: Seq<usize>, n: int) -> bool {
    &&& p.len() == n
    &&& forall|i: int| 0 <= i < n ==> #[trigger] p[i] < n
    &&& forall|i: int, j: int| 0 <= i < j < n ==> #[trigger] p[i] != #[trigger] p[j]
}

/// Taking `prs` at the positions `p` gives a list in order, where items
/// that tie keep their order in `prs`.
pub open spec fn positions_arranged(prs: Seq<PullRequest>, p: Seq<usize>, mode: GroupMode, sort: SortMode, user: Seq<char>) -> bool {
    forall|i: int, j: int| #![trigger p[i], p[j]] 0 <= i < j < p.len() ==> {
        let o = pr_order(prs[p[i] as int], prs[p[j] as int], mode, sort, user);
        o <= 0 && (o == 0 ==> p[i] < p[j])
    }
}

/// The positions as integers.
pub open spec fn positions(p: Seq<usize>) -> Seq<int> {
    p.map_values(|v: usize| v as int)
}

/// `r` is `src` sorted stably by `pr_order`: a copy of each item once, in
/// order, equal items in their order in `src`.
pub open spec fn spec_sorted_copy(r: Seq<PullRequest>, src: Seq<PullRequest>, mode: GroupMode, sort: SortMode, user: Seq<char>) -> bool {
    exists|p: Seq<usize>| #[trigger] is_permutation(p, src.len() as int)
        && positions_arranged(src, p, mode, sort, user)
        && copies_at(r, src, positions(p))
}

/// Two entries of a sorted copy stand in the list order of the entries they
/// copy.
proof fn lemma_sorted_pair(r: Seq<PullRequest>, src: Seq<PullRequest>, mode: GroupMode, sort: SortMode, user: Seq<char>,
    i: int, j: int) -> (pq: (PullRequest, PullRequest))
    requires
        spec_sorted_copy(r, src, mode, sort, user),
        0 <= i < j < r.len(),
    ensures
        r[i].spec_same(pq.0),
        r[j].spec_same(pq.1),
        pr_order(pq.0, pq.1, mode, sort, user) <= 0,
{
    let p = choose|p: Seq<usize>| #[trigger] is_permutation(p, src.len() as int)
        && positions_arranged(src, p, mode, sort, user)
        && copies_at(r, src, positions(p));
    assert(positions(p)[i] == p[i] as int);
    assert(positions(p)[j] == p[j] as int);
    let a = src[p[i] as int];
    let b = src[p[j] as int];
    assert(pr_order(a, b, mode, sort, user) <= 0);
    (a, b)
}

/// What the order of a sorted list means, for any two of its entries, the
/// earlier first: grouped by repository or author, the earlier one's key is
/// not after the later one's; grouped by ownership, the user's pull requests
/// come first. Without grouping, sorted by update or creation time, the
/// earlier one is not older; sorted by repository, its repository is not
/// after the later one's.
pub proof fn lemma_sorted_list_order(r: Seq<PullRequest>, src: Seq<PullRequest>, mode: GroupMode, sort: SortMode,
    user: Seq<char>)
    requires
        spec_sorted_copy(r, src, mode, sort, user),
    ensures
        mode == GroupMode::Repo ==> forall|i: int, j: int| #![trigger r[i], r[j]] 0 <= i < j < r.len()
            ==> !lex_lt(r[j].repo@, r[i].repo@),
        mode == GroupMode::Author ==> forall|i: int, j: int| #![trigger r[i], r[j]] 0 <= i < j < r.len()
            ==> !lex_lt(r[j].author@, r[i].author@),
        mode == GroupMode::MyVsOther ==> forall|i: int, j: int| #![trigger r[i], r[j]] 0 <= i < j < r.len()
            ==> (r[j].author@ == user ==> r[i].author@ == user),
        mode == GroupMode::Ungrouped && sort == SortMode::Created ==> forall|i: int, j: int| #![trigger r[i], r[j]] 0 <= i < j < r.len()
            ==> !lex_lt(r[i].created_at@, r[j].created_at@),
        mode == GroupMode::Ungrouped && sort == SortMode::Updated ==> forall|i: int, j: int| #![trigger r[i], r[j]] 0 <= i < j < r.len()
            ==> !lex_lt(r[i].updated_at@, r[j].updated_at@),
        mode == GroupMode::Ungrouped && sort == SortMode::Repo ==> forall|i: int, j: int| #![trigger r[i], r[j]] 0 <= i < j < r.len()
            ==> !lex_lt(r[j].repo@, r[i].repo@),
{
    reveal(pr_order);
    assert forall|i: int, j: int| #![trigger r[i], r[j]] 0 <= i < j < r.len() implies {
        &&& (mode == GroupMode::Repo ==> !lex_lt(r[j].repo@, r[i].repo@))
        &&& (mode == GroupMode::Author ==> !lex_lt(r[j].author@, r[i].author@))
        &&& (mode == GroupMode::MyVsOther ==> (r[j].author@ == user ==> r[i].author@ == user))
        &&& (mode == GroupMode::Ungrouped && sort == SortMode::Created ==> !lex_lt(r[i].created_at@, r[j].created_at@))
        &&& (mode == GroupMode::Ungrouped && sort == SortMode::Updated ==> !lex_lt(r[i].updated_at@, r[j].updated_at@))
        &&& (mode == GroupMode::Ungrouped && sort == SortMode::Repo ==> !lex_lt(r[j].repo@, r[i].repo@))
    } by {
        let (a, b) = lemma_sorted_pair(r, src, mode, sort, user, i, j);
        lemma_lex_lt_total(a.repo@, b.repo@);
        lemma_lex_lt_total(a.author@, b.author@);
        lemma_lex_lt_total(a.created_at@, b.created_at@);
        lemma_lex_lt_total(a.updated_at@, b.updated_at@);
    }
}

/// The string order read as -1, 0, 1 is antisymmetric and its "not after"
/// is transitive.
pub proof fn lemma_text_order(a: Seq<char>, b: Seq<char>, c: Seq<char>)
    ensures
        text_order(a, b) == -text_order(b, a),
        text_order(a, b) == 0 <==> a == b,
        text_order(a, b) <= 0 && text_order(b, c) <= 0 ==> text_order(a, c) <= 0,
{
    lemma_lex_lt_total(a, b);
    lemma_lex_lt_total(b, c);
    lemma_lex_lt_total(a, c);
    lemma_lex_lt_total(c, a);
    if lex_lt(a, b) && lex_lt(b, c) {
        lemma_lex_lt_trans(a, b, c);
    }
}

/// The three facts that make an order on three items consistent.
pub open spec fn consistent(ab: int, ba: int, bc: int, cb: int, ac: int, ca: int) -> bool {
    &&& ab == -ba
    &&& bc == -cb
    &&& ac == -ca
    &&& ab <= 0 && bc <= 0 ==> ac <= 0
    &&& bc <= 0 && ca <= 0 ==> ba <= 0
    &&& ca <= 0 && ab <= 0 ==> cb <= 0
    &&& ba <= 0 && ac <= 0 ==> bc <= 0
    &&& ac <= 0 && cb <= 0 ==> ab <= 0
    &&& cb <= 0 && ba <= 0 ==> ca <= 0
}

proof fn lemma_text_consistent(a: Seq<char>, b: Seq<char>, c: Seq<char>)
    ensures
        consistent(text_order(a, b), text_order(b, a), text_order(b, c), text_order(c, b),
            text_order(a, c), text_order(c, a)),
{
    lemma_text_order(a, b, c);
    lemma_text_order(b, c, a);
    lemma_text_order(c, a, b);
    lemma_text_order(b, a, c);
    lemma_text_order(a, c, b);
    lemma_text_order(c, b, a);
}

/// A lexicographic combination of two consistent orders is consistent.
proof fn lemma_then_consistent(
    g: (int, int, int, int, int, int),
    s: (int, int, int, int, int, int),
)
    requires
        consistent(g.0, g.1, g.2, g.3, g.4, g.5),
        consistent(s.0, s.1, s.2, s.3, s.4, s.5),
    ensures
        consistent(then_order(g.0, s.0), then_order(g.1, s.1), then_order(g.2, s.2),
            then_order(g.3, s.3), then_order(g.4, s.4), then_order(g.5, s.5)),
{
}

proof fn lemma_group_consistent(a: PullRequest, b: PullRequest, c: PullRequest, mode: GroupMode, user: Seq<char>)
    ensures
        consistent(group_order(a, b, mode, user), group_order(b, a, mode, user),
            group_order(b, c, mode, user), group_order(c, b, mode, user),
            group_order(a, c, mode, user), group_order(c, a, mode, user)),
{
    match mode {
        GroupMode::Ungrouped => {},
        GroupMode::Repo => lemma_text_consistent(a.repo@, b.repo@, c.repo@),
        GroupMode::Author => lemma_text_consistent(a.author@, b.author@, c.author@),
        GroupMode::Status => lemma_text_consistent(a.status.spec_label(), b.status.spec_label(), c.status.spec_label()),
        GroupMode::MyVsOther => {},
    }
}

proof fn lemma_secondary_consistent(a: PullRequest, b: PullRequest, c: PullRequest, sort: SortMode, user: Seq<char>)
    ensures
        consistent(secondary_order(a, b, sort, user), secondary_order(b, a, sort, user),
            secondary_order(b, c, sort, user), secondary_order(c, b, sort, user),
            secondary_order(a, c, sort, user), secondary_order(c, a, sort, user)),
{
    match sort {
        SortMode::Updated => lemma_text_consistent(c.updated_at@, b.updated_at@, a.updated_at@),
        SortMode::Created => lemma_text_consistent(c.created_at@, b.created_at@, a.created_at@),
        SortMode::Repo => lemma_text_consistent(a.repo@, b.repo@, c.repo@),
        SortMode::Priority => {
            lemma_text_consistent(c.updated_at@, b.updated_at@, a.updated_at@);
            let na = spec_needs_attention(a, user);
            let nb = spec_needs_attention(b, user);
            let nc = spec_needs_attention(c, user);
            lemma_then_consistent(
                (true_first(na, nb), true_first(nb, na), true_first(nb, nc), true_first(nc, nb),
                    true_first(na, nc), true_first(nc, na)),
                (text_order(b.updated_at@, a.updated_at@), text_order(a.updated_at@, b.updated_at@),
                    text_order(c.updated_at@, b.updated_at@), text_order(b.updated_at@, c.updated_at@),
                    text_order(c.updated_at@, a.updated_at@), text_order(a.updated_at@, c.updated_at@)),
            );
        },
    }
}

/// The list order is antisymmetric, and "not after" is transitive, on any
/// three pull requests.
pub proof fn lemma_pr_order(a: PullRequest, b: PullRequest, c: PullRequest, mode: GroupMode, sort: SortMode, user: Seq<char>)
    ensures
        pr_order(a, b, mode, sort, user) == -pr_order(b, a, mode, sort, user),
        pr_order(a, b, mode, sort, user) <= 0 && pr_order(b, c, mode, sort, user) <= 0
            ==> pr_order(a, c, mode, sort, user) <= 0,
{
    reveal(pr_order);
    lemma_group_consistent(a, b, c, mode, user);
    lemma_secondary_consistent(a, b, c, sort, user);
    lemma_then_consistent(
        (group_order(a, b, mode, user), group_order(b, a, mode, user), group_order(b, c, mode, user),
            group_order(c, b, mode, user), group_order(a, c, mode, user), group_order(c, a, mode, user)),
        (secondary_order(a, b, sort, user), secondary_order(b, a, sort, user), secondary_order(b, c, sort, user),
            secondary_order(c, b, sort, user), secondary_order(a, c, sort, user), secondary_order(c, a, sort, user)),
    );
}

/// Where `a` stands against `b` in the string order.
pub fn text_order_of(a: &str, b: &str) -> (r: i8)
    ensures
        r == text_order(a@, b@),
{
    if str_lt(a, b) {
        -1
    } else if str_lt(b, a) {
        1
    } else {
        0
    }
}

fn true_first_of(a: bool, b: bool) -> (r: i8)
    ensures
        r == true_first(a, b),
{
    if a == b {
        0
    } else if a {
        -1
    } else {
        1
    }
}

/// Where `a` stands against `b` in the list (see `pr_order`).
pub fn pr_order_of(a: &PullRequest, b: &PullRequest, mode: GroupMode, sort: SortMode, user: &str) -> (r: i8)
    ensures
        r == pr_order(*a, *b, mode, sort, user@),
{
    reveal(pr_order);
    let g = match mode {
        GroupMode::Ungrouped => 0,
        GroupMode::Repo => text_order_of(a.repo.as_str(), b.repo.as_str()),
        GroupMode::Author => text_order_of(a.author.as_str(), b.author.as_str()),
        GroupMode::Status => text_order_of(a.status.label(), b.status.label()),
        GroupMode::MyVsOther => true_first_of(str_eq(a.author.as_str(), user), str_eq(b.author.as_str(), user)),
    };
    if g != 0 {
        return g;
    }
    match sort {
        SortMode::Updated => text_order_of(b.updated_at.as_str(), a.updated_at.as_str()),
        SortMode::Created => text_order_of(b.created_at.as_str(), a.created_at.as_str()),
        SortMode::Repo => text_order_of(a.repo.as_str(), b.repo.as_str()),
        SortMode::Priority => {
            let t = true_first_of(needs_attention(a, user), needs_attention(b, user));
            if t != 0 {
                t
            } else {
                text_order_of(b.updated_at.as_str(), a.updated_at.as_str())
            }
        },
    }
}

/// Inserting `x` anywhere into a permutation of `0..x` gives one of `0..x+1`.
proof fn lemma_insert_permutation(p: Seq<usize>, k: int, x: usize)
    requires
        is_permutation(p, x as int),
        0 <= k <= p.len(),
    ensures
        is_permutation(p.insert(k, x), x + 1),
{
    let q = p.insert(k, x);
    assert forall|i: int| 0 <= i < x + 1 implies #[trigger] q[i] < x + 1 by {
        if i < k {
            assert(q[i] == p[i]);
        } else if i > k {
            assert(q[i] == p[i - 1]);
        }
    }
    assert forall|i: int, j: int| 0 <= i < j < x + 1 implies #[trigger] q[i] != #[trigger] q[j] by {
        if i < k && j < k {
            assert(p[i] != p[j]);
        } else if i < k && j > k {
            assert(q[j] == p[j - 1]);
            assert(p[i] != p[j - 1]);
        } else if i > k && j > k {
            assert(q[i] == p[i - 1]);
            assert(q[j] == p[j - 1]);
            assert(p[i - 1] != p[j - 1]);
        } else if i == k {
            assert(q[j] == p[j - 1]);
            assert(p[j - 1] < x);
        } else {
            assert(q[i] == p[i]);
            assert(p[i] < x);
        }
    }
}

/// Inserting item `x` at `k`, where it is not before the item ahead of it
/// and before every item after it, keeps the positions arranged.
proof fn lemma_insert_arranged(
    prs: Seq<PullRequest>,
    p: Seq<usize>,
    k: int,
    x: usize,
    mode: GroupMode,
    sort: SortMode,
    user: Seq<char>,
)
    requires
        x < prs.len(),
        is_permutation(p, x as int),
        positions_arranged(prs, p, mode, sort, user),
        0 <= k <= p.len(),
        k > 0 ==> pr_order(prs[x as int], prs[p[k - 1] as int], mode, sort, user) >= 0,
        forall|m: int| k <= m < p.len() ==> pr_order(prs[x as int], #[trigger] prs[p[m] as int], mode, sort, user) < 0,
    ensures
        is_permutation(p.insert(k, x), x + 1),
        positions_arranged(prs, p.insert(k, x), mode, sort, user),
{
    let q = p.insert(k, x);
    lemma_insert_permutation(p, k, x);
    assert forall|i: int, j: int| #![trigger q[i], q[j]] 0 <= i < j < q.len() implies {
        let o = pr_order(prs[q[i] as int], prs[q[j] as int], mode, sort, user);
        o <= 0 && (o == 0 ==> q[i] < q[j])
    } by {
        let xp = prs[x as int];
        if j < k {
            assert(q[i] == p[i] && q[j] == p[j]);
        } else if i > k {
            assert(q[i] == p[i - 1] && q[j] == p[j - 1]);
        } else if i < k && j > k {
            assert(q[i] == p[i] && q[j] == p[j - 1]);
        } else if i == k {
            assert(q[j] == p[j - 1]);
            assert(pr_order(xp, prs[p[j - 1] as int], mode, sort, user) < 0);
        } else {
            // j == k, i < k
            assert(q[i] == p[i]);
            let y = prs[p[k - 1] as int];
            let w = prs[p[i] as int];
            lemma_pr_order(xp, y, w, mode, sort, user);
            lemma_pr_order(w, y, xp, mode, sort, user);
            if i < k - 1 {
                assert(pr_order(w, y, mode, sort, user) <= 0);
            }
            assert(p[i] < x);
        }
    }
}

/// The positions of `prs` in list order (an insertion sort, stable).
fn sort_positions(prs: &[PullRequest], mode: GroupMode, sort: SortMode, user: &str) -> (p: Vec<usize>)
    ensures
        is_permutation(p@, prs@.len() as int),
        positions_arranged(prs@, p@, mode, sort, user@),
{
    let mut p: Vec<usize> = Vec::new();
    let mut i: usize = 0;
    while i < prs.len()
        invariant
            i <= prs.len(),
            is_permutation(p@, i as int),
            positions_arranged(prs@, p@, mode, sort, user@),
        decreases prs.len() - i,
    {
        let mut k: usize = p.len();
        while k > 0
            invariant
                i < prs.len(),
                p@.len() == i,
                is_permutation(p@, i as int),
                k <= p@.len(),
                forall|m: int| k <= m < p@.len() ==> pr_order(prs@[i as int], #[trigger] prs@[p@[m] as int], mode, sort, user@) < 0,
            ensures
                k <= p@.len(),
                k > 0 ==> pr_order(prs@[i as int], prs@[p@[k - 1] as int], mode, sort, user@) >= 0,
                forall|m: int| k <= m < p@.len() ==> pr_order(prs@[i as int], #[trigger] prs@[p@[m] as int], mode, sort, user@) < 0,
            decreases k,
        {
            let o = pr_order_of(&prs[i], &prs[p[k - 1]], mode, sort, user);
            if o < 0 {
                k = k - 1;
            } else {
                break;
            }
        }
        proof {
            lemma_insert_arranged(prs@, p@, k as int, i, mode, sort, user@);
        }
        p.insert(k, i);
        i = i + 1;
    }
    p
}

/// Copies of the items of `prs` at the positions `p`, in that order.
fn copy_at_positions(prs: &[PullRequest], p: &Vec<usize>) -> (r: Vec<PullRequest>)
    requires
        forall|i: int| 0 <= i < p@.len() ==> #[trigger] p@[i] < prs@.len(),
    ensures
        copies_at(r@, prs@, positions(p@)),
{
    let mut out: Vec<PullRequest> = Vec::new();
    let mut i: usize = 0;
    while i < p.len()
        invariant
            i <= p@.len(),
            forall|m: int| 0 <= m < p@.len() ==> #[trigger] p@[m] < prs@.len(),
            out@.len() == i,
            forall|m: int| 0 <= m < i ==> #[trigger] out@[m].spec_same(prs@[p@[m] as int]),
        decreases p.len() - i,
    {
        out.push(prs[p[i]].duplicate());
        i = i + 1;
    }
    proof {
        let idx = positions(p@);
        assert forall|m: int| 0 <= m < idx.len() implies 0 <= #[trigger] idx[m] < prs@.len()
            && out@[m].spec_same(prs@[idx[m]]) by {
            assert(idx[m] == p@[m] as int);
        }
    }
    out
}

/// Copies of the pull requests in list order: grouped first, then by the
/// sort mode, equal ones in their current order.
pub fn sorted_prs(prs: &[PullRequest], mode: GroupMode, sort: SortMode, user: &str) -> (r: Vec<PullRequest>)
    ensures
        spec_sorted_copy(r@, prs@, mode, sort, user@),
{
    let p = sort_positions(prs, mode, sort, user);
    let r = copy_at_positions(prs, &p);
    proof {
        assert(is_permutation(p@, prs@.len() as int));
    }
    r
}

} // verus!
