//! What the detail pane shows besides the raw fields: the line of reviews,
//! the outcome of each CI check, the active attention reasons in order, and
//! the text of a timeline entry cut to its first bytes.
use vstd::prelude::*;
use crate::domain::attention::{ReasonSet, TriggerReason};
use crate::domain::pr::{CheckRun, Reviewer};
use crate::util::text::{lex_lt, str_lt, str_eq, push_str, push_char, lemma_lex_lt_total, lemma_lex_lt_trans, chars_of};

verus! {

/// How a CI check ended, for its icon and color.
#[derive(Debug, Clone, Copy, PartialEq, Eq, Structural)]
pub enum CheckOutcome {
    Success,
    Failure,
    Other,
}

/// "success" succeeded, "failure" and "error" failed, anything else (or no
/// conclusion yet) is neither.
pub open spec fn spec_check_outcome(conclusion: Option<Seq<char>>) -> CheckOutcome {
    match conclusion {
        Some(c) => if c == "success"@ {
            CheckOutcome::Success
        } else if c == "failure"@ || c == "error"@ {
            CheckOutcome::Failure
        } else {
            CheckOutcome::Other
        },
        None => CheckOutcome::Other,
    }
}

/// How the check ended (see `spec_check_outcome`).
pub fn check_outcome(check: &CheckRun) -> (r: CheckOutcome)
    ensures
        r == spec_check_outcome(match check.conclusion { Some(c) => Some(c@), None => None }),
{
    match &check.conclusion {
        Some(c) => if str_eq(c.as_str(), "success") {
            CheckOutcome::Success
        } else if str_eq(c.as_str(), "failure") || str_eq(c.as_str(), "error") {
            CheckOutcome::Failure
        } else {
            CheckOutcome::Other
        },
        None => CheckOutcome::Other,
    }
}

/// One person reviewing as shown: `login(status)`.
pub open spec fn reviewer_entry(r: Reviewer) -> Seq<char> {
    r.login@ + "("@ + r.status@ + ")"@
}

/// The entries joined with ", ".
pub open spec fn joined_entries(rs: Seq<Reviewer>) -> Seq<char>
    decreases rs.len(),
{
    if rs.len() == 0 {
        Seq::empty()
    } else if rs.len() == 1 {
        reviewer_entry(rs[0])
    } else {
        joined_entries(rs.drop_last()) + ", "@ + reviewer_entry(rs.last())
    }
}

/// The line of reviews: "None", or each person reviewing as `login(status)`,
/// separated by ", ".
pub open spec fn spec_review_line(rs: Seq<Reviewer>) -> Seq<char> {
    if rs.len() == 0 { "None"@ } else { joined_entries(rs) }
}

/// The line of reviews (see `spec_review_line`).
pub fn reviewers_text(reviewers: &Vec<Reviewer>) -> (r: String)
    ensures
        r@ == spec_review_line(reviewers@),
{
    if reviewers.len() == 0 {
        return String::from_str("None");
    }
    let mut out = String::new();
    let mut i: usize = 0;
    while i < reviewers.len()
        invariant
            i <= reviewers@.len(),
            reviewers@.len() > 0,
            out@ == joined_entries(reviewers@.take(i as int)),
        decreases reviewers.len() - i,
    {
        let ghost before = out@;
        if i > 0 {
            push_str(&mut out, ", ");
        }
        push_str(&mut out, reviewers[i].login.as_str());
        push_char(&mut out, '(');
        push_str(&mut out, reviewers[i].status.as_str());
        push_char(&mut out, ')');
        proof {
            reveal_strlit("(");
            reveal_strlit(")");
            let t = reviewers@.take(i + 1);
            assert(t.drop_last() =~= reviewers@.take(i as int));
            assert(t.last() == reviewers@[i as int]);
            if i == 0 {
                assert(before =~= Seq::<char>::empty());
                assert(out@ =~= reviewer_entry(reviewers@[0]));
            } else {
                assert(out@ =~= before + ", "@ + reviewer_entry(reviewers@[i as int]));
            }
        }
        i = i + 1;
    }
    assert(reviewers@.take(reviewers@.len() as int) =~= reviewers@);
    out
}

/// The labels are in strictly increasing string order.
pub open spec fn labels_ascending(v: Seq<&'static str>) -> bool {
    forall|i: int, j: int| 0 <= i < j < v.len() ==> lex_lt(#[trigger] v[i]@, #[trigger] v[j]@)
}

/// The texts of the labels.
pub open spec fn label_texts(v: Seq<&'static str>) -> Set<Seq<char>> {
    Set::new(|s: Seq<char>| exists|k: int| 0 <= k < v.len() && #[trigger] v[k]@ == s)
}

/// The labels of the first `n` reasons.
pub open spec fn reason_texts(items: Seq<TriggerReason>, n: int) -> Set<Seq<char>> {
    Set::new(|s: Seq<char>| exists|j: int| 0 <= j < n && #[trigger] items[j].spec_label() == s)
}

/// Inserting a label where it belongs keeps the labels ascending.
proof fn lemma_insert_label(v: Seq<&'static str>, k: int, lab: &'static str)
    requires
        labels_ascending(v),
        0 <= k <= v.len(),
        k > 0 ==> lex_lt(v[k - 1]@, lab@),
        forall|m: int| k <= m < v.len() ==> lex_lt(lab@, #[trigger] v[m]@),
    ensures
        labels_ascending(v.insert(k, lab)),
        label_texts(v.insert(k, lab)) == label_texts(v).insert(lab@),
{
    let out = v.insert(k, lab);
    assert forall|a: int, b: int| 0 <= a < b < out.len() implies lex_lt(#[trigger] out[a]@, #[trigger] out[b]@) by {
        if b < k {
            assert(out[a] == v[a] && out[b] == v[b]);
        } else if a > k {
            assert(out[a] == v[a - 1] && out[b] == v[b - 1]);
        } else if a < k && b > k {
            assert(out[a] == v[a] && out[b] == v[b - 1]);
        } else if a == k {
            assert(out[b] == v[b - 1]);
        } else {
            assert(out[a] == v[a]);
            if a < k - 1 {
                lemma_lex_lt_trans(v[a]@, v[k - 1]@, lab@);
            }
        }
    }
    assert forall|s: Seq<char>| label_texts(out).contains(s) <==> label_texts(v).insert(lab@).contains(s) by {
        if label_texts(out).contains(s) {
            let m = choose|m: int| 0 <= m < out.len() && #[trigger] out[m]@ == s;
            if m < k {
                assert(out[m] == v[m]);
            } else if m > k {
                assert(out[m] == v[m - 1]);
            }
        }
        if label_texts(v).contains(s) {
            let m = choose|m: int| 0 <= m < v.len() && #[trigger] v[m]@ == s;
            if m < k {
                assert(out[m] == v[m]);
            } else {
                assert(out[m + 1] == v[m]);
            }
        }
        if s == lab@ {
            assert(out[k] == lab);
        }
    }
    assert(label_texts(out) =~= label_texts(v).insert(lab@));
}

/// The labels of the active reasons, in string order (as the detail pane
/// lists them).
pub fn reason_labels(reasons: &ReasonSet) -> (r: Vec<&'static str>)
    ensures
        r@.len() == reasons@.len(),
        labels_ascending(r@),
        label_texts(r@) == reasons@.map(|x: TriggerReason| x.spec_label()),
{
    let items = reasons.to_vec();
    let n = reasons.len();
    proof {
        items@.unique_seq_to_set();
        assert(label_texts(Seq::<&'static str>::empty()) =~= reason_texts(items@, 0));
    }
    let mut out: Vec<&'static str> = Vec::new();
    let mut i: usize = 0;
    while i < items.len()
        invariant
            i <= items@.len(),
            items@.len() == n,
            items@.no_duplicates(),
            out@.len() == i,
            labels_ascending(out@),
            label_texts(out@) == reason_texts(items@, i as int),
        decreases items.len() - i,
    {
        let lab = items[i].label();
        let mut k: usize = out.len();
        while k > 0
            invariant
                k <= out@.len(),
                forall|m: int| k <= m < out@.len() ==> lex_lt(lab@, #[trigger] out@[m]@),
            ensures
                k <= out@.len(),
                k > 0 ==> !lex_lt(lab@, out@[k - 1]@),
                forall|m: int| k <= m < out@.len() ==> lex_lt(lab@, #[trigger] out@[m]@),
            decreases k,
        {
            if str_lt(lab, out[k - 1]) {
                k = k - 1;
            } else {
                break;
            }
        }
        let ghost before = out@;
        proof {
            if k > 0 {
                let s = before[k - 1]@;
                assert(label_texts(before).contains(s));
                let j = choose|j: int| 0 <= j < i && #[trigger] items@[j].spec_label() == s;
                assert(items@[j] != items@[i as int]);
                lemma_labels_distinct(items@[j], items@[i as int]);
                lemma_lex_lt_total(lab@, s);
            }
        }
        out.insert(k, lab);
        proof {
            lemma_insert_label(before, k as int, lab);
            assert(reason_texts(items@, i + 1) =~= reason_texts(items@, i as int).insert(items@[i as int].spec_label()));
        }
        i = i + 1;
    }
    proof {
        assert forall|s: Seq<char>| reason_texts(items@, n as int).contains(s)
            <==> reasons@.map(|x: TriggerReason| x.spec_label()).contains(s) by {
            if reason_texts(items@, n as int).contains(s) {
                let j = choose|j: int| 0 <= j < n && #[trigger] items@[j].spec_label() == s;
                assert(items@.to_set().contains(items@[j]));
            }
            if reasons@.map(|x: TriggerReason| x.spec_label()).contains(s) {
                let x = choose|x: TriggerReason| reasons@.contains(x) && x.spec_label() == s;
                assert(items@.to_set().contains(x));
                let j = choose|j: int| 0 <= j < items@.len() && items@[j] == x;
                assert(items@[j].spec_label() == s);
            }
        }
        assert(reason_texts(items@, n as int) =~= reasons@.map(|x: TriggerReason| x.spec_label()));
    }
    out
}

/// Different reasons have different labels.
proof fn lemma_labels_distinct(a: TriggerReason, b: TriggerReason)
    requires
        a != b,
    ensures
        a.spec_label() != b.spec_label(),
{
    reveal_strlit("Review requested");
    reveal_strlit("Re-review requested");
    reveal_strlit("Mentioned in comment");
    reveal_strlit("Comment reply");
    reveal_strlit("CI failed");
    reveal_strlit("Changes requested");
    reveal_strlit("Merge conflict");
    reveal_strlit("Approved — ready to merge");
    reveal_strlit("New comments");
    if a.spec_label() == b.spec_label() {
        assert(a.spec_label().len() == b.spec_label().len());
        assert(a.spec_label()[0] == b.spec_label()[0]);
        assert(a.spec_label()[1] == b.spec_label()[1]);
        assert(a.spec_label()[2] == b.spec_label()[2]);
    }
}

/// The number of bytes the UTF-8 encoding of `c` takes.
pub open spec fn utf8_width(c: char) -> nat {
    if (c as u32) < 0x80 {
        1
    } else if (c as u32) < 0x800 {
        2
    } else if (c as u32) < 0x10000 {
        3
    } else {
        4
    }
}

/// The number of bytes of the UTF-8 encoding of `s` (the length of a `str`).
pub open spec fn utf8_len(s: Seq<char>) -> nat
    decreases s.len(),
{
    if s.len() == 0 { 0 } else { utf8_width(s[0]) + utf8_len(s.drop_first()) }
}

/// The longest start of `s` whose encoding takes at most `n` bytes.
pub open spec fn fit_prefix(s: Seq<char>, n: int) -> Seq<char>
    decreases s.len(),
{
    if s.len() == 0 || utf8_width(s[0]) > n {
        Seq::empty()
    } else {
        seq![s[0]] + fit_prefix(s.drop_first(), n - utf8_width(s[0]))
    }
}

/// Byte `n` of the encoding of `s` is where a character starts (or the end):
/// the longest start within `n` bytes takes exactly `n`.
pub open spec fn char_boundary(s: Seq<char>, n: int) -> bool {
    utf8_len(fit_prefix(s, n)) == n
}

/// The text shown for a timeline entry: when it takes more than 100 bytes,
/// its first 97 bytes and "..."; otherwise all of it.
pub open spec fn spec_shown_content(s: Seq<char>) -> Seq<char> {
    if utf8_len(s) > 100 { fit_prefix(s, 97) + "..."@ } else { s }
}

/// The number of bytes the UTF-8 encoding of `c` takes (see `utf8_width`).
fn char_width(c: char) -> (r: u32)
    ensures
        r == utf8_width(c),
{
    let v = c as u32;
    if v < 0x80 {
        1
    } else if v < 0x800 {
        2
    } else if v < 0x10000 {
        3
    } else {
        4
    }
}

/// The text shown for a timeline entry (see `spec_shown_content`). The cut
/// must fall where a character starts.
pub fn shown_content(content: &str) -> (r: String)
    requires
        utf8_len(content@) > 100 ==> char_boundary(content@, 97),
    ensures
        r@ == spec_shown_content(content@),
{
    let cs = chars_of(content);
    let ghost s = cs@;
    // Whether the text takes more than 100 bytes.
    let mut acc: u32 = 0;
    let mut i: usize = 0;
    assert(s.skip(0) =~= s);
    while i < cs.len() && acc <= 100
        invariant
            i <= cs.len(),
            s == cs@,
            acc <= 104,
            acc + utf8_len(s.skip(i as int)) == utf8_len(s),
        decreases cs.len() - i,
    {
        assert(s.skip(i as int).drop_first() =~= s.skip(i + 1));
        acc = acc + char_width(cs[i]);
        i = i + 1;
    }
    assert(content@ == s);
    if acc <= 100 {
        assert(s.skip(i as int) =~= Seq::<char>::empty());
        return String::from_str(content);
    }
    // The longest start within 97 bytes.
    let mut out = String::new();
    let mut used: u32 = 0;
    let mut j: usize = 0;
    assert(s.take(0) =~= Seq::<char>::empty());
    assert(s.skip(0) =~= s);
    loop
        invariant
            j <= cs.len(),
            s == cs@,
            used <= 97,
            out@ == s.take(j as int),
            fit_prefix(s, 97) == s.take(j as int) + fit_prefix(s.skip(j as int), 97 - used),
        ensures
            fit_prefix(s, 97) == out@,
        decreases cs.len() - j,
    {
        if j >= cs.len() {
            assert(s.skip(j as int) =~= Seq::<char>::empty());
            assert(s.take(j as int) + Seq::<char>::empty() =~= s.take(j as int));
            break;
        }
        let w = char_width(cs[j]);
        assert(s.skip(j as int)[0] == s[j as int]);
        assert(s.skip(j as int).drop_first() =~= s.skip(j + 1));
        if w > 97 - used {
            assert(fit_prefix(s.skip(j as int), 97 - used) =~= Seq::<char>::empty());
            assert(s.take(j as int) + Seq::<char>::empty() =~= s.take(j as int));
            break;
        }
        push_char(&mut out, cs[j]);
        assert(s.take(j + 1) =~= s.take(j as int).push(s[j as int]));
        assert(s.take(j as int) + (seq![s[j as int]] + fit_prefix(s.skip(j + 1), 97 - used - w))
            =~= s.take(j + 1) + fit_prefix(s.skip(j + 1), 97 - used - w));
        used = used + w;
        j = j + 1;
    }
    push_str(&mut out, "...");
    out
}

} // verus!
