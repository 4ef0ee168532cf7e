//! The live filter of the pull request list.
use vstd::prelude::*;
use crate::domain::pr::{PullRequest, copies_at, copies_of, clone_prs};
use crate::util::text::{
    chars_of, decimal, decimal_chars, seq_contains, spec_to_lowercase, to_lowercase, vec_contains,
};

verus! {

/// The pull request matches a lowercased query: it occurs in the lowercased
/// title, author or repository, or in `#` followed by the number.
pub open spec fn spec_search_match(pr: PullRequest, q: Seq<char>) -> bool {
    ||| seq_contains(spec_to_lowercase(pr.title@), q)
    ||| seq_contains(spec_to_lowercase(pr.author@), q)
    ||| seq_contains(spec_to_lowercase(pr.repo@), q)
    ||| seq_contains(seq!['#'] + decimal(pr.number as nat), q)
}

/// The positions of the matching pull requests, in order.
pub open spec fn spec_match_indices(prs: Seq<PullRequest>, q: Seq<char>) -> Seq<int>
    decreases prs.len(),
{
    if prs.len() == 0 {
        Seq::empty()
    } else {
        let init = spec_match_indices(prs.drop_last(), q);
        if spec_search_match(prs.last(), q) { init.push(prs.len() - 1) } else { init }
    }
}

proof fn lemma_match_indices_bounded(prs: Seq<PullRequest>, q: Seq<char>)
    ensures
        forall|i: int| 0 <= i < spec_match_indices(prs, q).len()
            ==> 0 <= #[trigger] spec_match_indices(prs, q)[i] < prs.len(),
    decreases prs.len(),
{
    if prs.len() > 0 {
        lemma_match_indices_bounded(prs.drop_last(), q);
        let init = spec_match_indices(prs.drop_last(), q);
        assert forall|i: int| 0 <= i < spec_match_indices(prs, q).len()
            implies 0 <= #[trigger] spec_match_indices(prs, q)[i] < prs.len() by {
            if i < init.len() {
                assert(spec_match_indices(prs, q)[i] == init[i]);
            }
        }
    }
}

/// A pull request that matches the query is selected.
proof fn lemma_match_selected(prs: Seq<PullRequest>, q: Seq<char>, k: int)
    requires
        0 <= k < prs.len(),
        spec_search_match(prs[k], q),
    ensures
        exists|m: int| 0 <= m < spec_match_indices(prs, q).len() && #[trigger] spec_match_indices(prs, q)[m] == k,
    decreases prs.len(),
{
    let init = spec_match_indices(prs.drop_last(), q);
    if k == prs.len() - 1 {
        assert(spec_match_indices(prs, q)[init.len() as int] == k);
    } else {
        assert(prs.drop_last()[k] == prs[k]);
        lemma_match_selected(prs.drop_last(), q, k);
        let m = choose|m: int| 0 <= m < init.len() && #[trigger] init[m] == k;
        assert(spec_match_indices(prs, q)[m] == k);
    }
}

/// Only matching pull requests are selected, in increasing position.
proof fn lemma_selected_match(prs: Seq<PullRequest>, q: Seq<char>)
    ensures
        forall|m: int| 0 <= m < spec_match_indices(prs, q).len() ==> {
            let k = #[trigger] spec_match_indices(prs, q)[m];
            0 <= k < prs.len() && spec_search_match(prs[k], q)
        },
        forall|m: int, n: int| 0 <= m < n < spec_match_indices(prs, q).len()
            ==> #[trigger] spec_match_indices(prs, q)[m] < #[trigger] spec_match_indices(prs, q)[n],
    decreases prs.len(),
{
    if prs.len() > 0 {
        lemma_selected_match(prs.drop_last(), q);
        lemma_match_indices_bounded(prs.drop_last(), q);
        let init = spec_match_indices(prs.drop_last(), q);
        let all = spec_match_indices(prs, q);
        assert forall|m: int| 0 <= m < all.len() implies {
            let k = #[trigger] all[m];
            0 <= k < prs.len() && spec_search_match(prs[k], q)
        } by {
            if m < init.len() {
                assert(all[m] == init[m]);
                assert(prs.drop_last()[init[m]] == prs[init[m]]);
            }
        }
        assert forall|m: int, n: int| 0 <= m < n < all.len() implies #[trigger] all[m] < #[trigger] all[n] by {
            if n < init.len() {
                assert(all[m] == init[m] && all[n] == init[n]);
            } else {
                assert(all[m] == init[m]);
            }
        }
    }
}

/// The live filter with a non-empty query, compared lowercased: a pull
/// request whose lowercased title, author or repository contains the
/// lowercased query, or whose "#" and number does, is selected; every selected
/// one is such a pull request; the selection keeps the list's order.
pub proof fn lemma_filter_selects_matches(prs: Seq<PullRequest>, query: Seq<char>)
    ensures
        forall|k: int| 0 <= k < prs.len() && (
            seq_contains(spec_to_lowercase(prs[k].title@), spec_to_lowercase(query))
            || seq_contains(spec_to_lowercase(prs[k].author@), spec_to_lowercase(query))
            || seq_contains(spec_to_lowercase(prs[k].repo@), spec_to_lowercase(query))
            || seq_contains(seq!['#'] + decimal(prs[k].number as nat), spec_to_lowercase(query)))
            ==> exists|m: int| 0 <= m < spec_match_indices(prs, spec_to_lowercase(query)).len()
                && #[trigger] spec_match_indices(prs, spec_to_lowercase(query))[m] == k,
        forall|m: int| 0 <= m < spec_match_indices(prs, spec_to_lowercase(query)).len() ==> {
            let k = #[trigger] spec_match_indices(prs, spec_to_lowercase(query))[m];
            &&& 0 <= k < prs.len()
            &&& (seq_contains(spec_to_lowercase(prs[k].title@), spec_to_lowercase(query))
                || seq_contains(spec_to_lowercase(prs[k].author@), spec_to_lowercase(query))
                || seq_contains(spec_to_lowercase(prs[k].repo@), spec_to_lowercase(query))
                || seq_contains(seq!['#'] + decimal(prs[k].number as nat), spec_to_lowercase(query)))
        },
        forall|m: int, n: int| 0 <= m < n < spec_match_indices(prs, spec_to_lowercase(query)).len()
            ==> #[trigger] spec_match_indices(prs, spec_to_lowercase(query))[m]
                < #[trigger] spec_match_indices(prs, spec_to_lowercase(query))[n],
{
    let q = spec_to_lowercase(query);
    assert forall|k: int| 0 <= k < prs.len() && (
        seq_contains(spec_to_lowercase(prs[k].title@), q)
        || seq_contains(spec_to_lowercase(prs[k].author@), q)
        || seq_contains(spec_to_lowercase(prs[k].repo@), q)
        || seq_contains(seq!['#'] + decimal(prs[k].number as nat), q))
        implies exists|m: int| 0 <= m < spec_match_indices(prs, q).len()
            && #[trigger] spec_match_indices(prs, q)[m] == k by {
        lemma_match_selected(prs, q, k);
    }
    lemma_selected_match(prs, q);
}

fn lowered(s: &str) -> (r: Vec<char>)
    ensures
        r@ == spec_to_lowercase(s@),
{
    let l = to_lowercase(s);
    chars_of(l.as_str())
}

fn search_match(pr: &PullRequest, q: &Vec<char>) -> (b: bool)
    ensures
        b == spec_search_match(*pr, q@),
{
    if vec_contains(&lowered(pr.title.as_str()), q) {
        return true;
    }
    if vec_contains(&lowered(pr.author.as_str()), q) {
        return true;
    }
    if vec_contains(&lowered(pr.repo.as_str()), q) {
        return true;
    }
    let mut num: Vec<char> = Vec::new();
    num.push('#');
    let digits = decimal_chars(pr.number as u128);
    let mut i: usize = 0;
    while i < digits.len()
        invariant
            i <= digits.len(),
            num@ == seq!['#'] + digits@.take(i as int),
        decreases digits.len() - i,
    {
        num.push(digits[i]);
        assert(seq!['#'] + digits@.take(i + 1) =~= (seq!['#'] + digits@.take(i as int)).push(digits@[i as int]));
        i = i + 1;
    }
    assert(digits@.take(digits.len() as int) =~= digits@);
    vec_contains(&num, q)
}

/// The pull requests that match the query, in order; all of them for an
/// empty query. The query is compared lowercased.
pub fn filter_prs(prs: &[PullRequest], query: &str) -> (r: Vec<PullRequest>)
    ensures
        query@.len() == 0 ==> copies_of(r@, prs@),
        query@.len() > 0 ==> copies_at(r@, prs@, spec_match_indices(prs@, spec_to_lowercase(query@))),
{
    let qc = chars_of(query);
    if qc.len() == 0 {
        return clone_prs(prs);
    }
    let q = lowered(query);
    let ghost qv = q@;
    let mut out: Vec<PullRequest> = Vec::new();
    let mut i: usize = 0;
    while i < prs.len()
        invariant
            i <= prs.len(),
            qv == q@,
            copies_at(out@, prs@, spec_match_indices(prs@.take(i as int), qv)),
        decreases prs.len() - i,
    {
        proof {
            lemma_match_indices_bounded(prs@.take(i as int), qv);
            assert(prs@.take(i + 1).drop_last() =~= prs@.take(i as int));
            assert(prs@.take(i + 1).last() == prs@[i as int]);
        }
        let ghost idx_before = spec_match_indices(prs@.take(i as int), qv);
        if search_match(&prs[i], &q) {
            out.push(prs[i].duplicate());
            assert(spec_match_indices(prs@.take(i + 1), qv) == idx_before.push(i as int));
            assert forall|k: int| 0 <= k < idx_before.len() implies 0 <= #[trigger] idx_before[k] < i by {}
        }
        i = i + 1;
    }
    assert(prs@.take(prs.len() as int) =~= prs@);
    out
}

} // verus!
