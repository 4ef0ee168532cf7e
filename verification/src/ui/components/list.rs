//! What a list item shows: the comment counts split into seen and new, and
//! the title fitted to the room left on its line.
use vstd::prelude::*;
use crate::domain::pr::{MergeableStatus, PullRequest};
use crate::util::text::{chars_of, decimal, decimal_string, push_char, push_str, string_from_chars, slice_chars};

verus! {

/// `a - b`, or 0 when `b` is larger (as `saturating_sub`).
pub open spec fn sub_floor(a: int, b: int) -> int {
    if a > b { a - b } else { 0 }
}

/// The comment counts of a list item: unresolved threads and
/// conversational comments, each split into those already seen and those
/// new since the pull request was last seen (none new when never seen).
#[derive(Debug, Clone, Copy, PartialEq, Eq, Structural)]
pub struct CommentDelta {
    pub unresolved_old: u32,
    pub unresolved_new: u32,
    pub conversational_old: u32,
    pub conversational_new: u32,
}

/// The split of the comment counts (see `CommentDelta`): the new unresolved
/// threads are the threads added since last seen, at most the unresolved
/// ones; the new conversational comments are those added since last seen.
pub open spec fn spec_comment_delta(pr: PullRequest) -> CommentDelta {
    let seen = pr.last_seen_at is Some;
    let added = sub_floor(pr.total_resolvable_count as int, pr.last_seen_total_resolvable_count as int);
    let unresolved_new = if seen {
        if added < pr.unresolved_count { added } else { pr.unresolved_count as int }
    } else {
        0
    };
    let conversational_new = if seen {
        sub_floor(pr.conversational_count as int, pr.last_seen_conversational_count as int)
    } else {
        0
    };
    CommentDelta {
        unresolved_old: sub_floor(pr.unresolved_count as int, unresolved_new) as u32,
        unresolved_new: unresolved_new as u32,
        conversational_old: sub_floor(pr.conversational_count as int, conversational_new) as u32,
        conversational_new: conversational_new as u32,
    }
}

/// The comment counts of a list item (see `spec_comment_delta`).
pub fn comment_delta(pr: &PullRequest) -> (r: CommentDelta)
    ensures
        r == spec_comment_delta(*pr),
{
    let seen = pr.last_seen_at.is_some();
    let added = pr.total_resolvable_count.saturating_sub(pr.last_seen_total_resolvable_count);
    let unresolved_new = if seen {
        if added < pr.unresolved_count { added } else { pr.unresolved_count }
    } else {
        0
    };
    let conversational_new = if seen {
        pr.conversational_count.saturating_sub(pr.last_seen_conversational_count)
    } else {
        0
    };
    CommentDelta {
        unresolved_old: pr.unresolved_count.saturating_sub(unresolved_new),
        unresolved_new,
        conversational_old: pr.conversational_count.saturating_sub(conversational_new),
        conversational_new,
    }
}

/// A piece of the comment column's text, and whether it counts something
/// new (drawn highlighted).
#[derive(Debug)]
pub struct CountPiece {
    pub text: String,
    pub fresh: bool,
}

/// A count, followed by "+" and the new ones when there are any.
pub open spec fn count_texts(old: u32, new: u32) -> Seq<(Seq<char>, bool)> {
    if new > 0 {
        seq![(decimal(old as nat), false), ("+"@ + decimal(new as nat), true)]
    } else {
        seq![(decimal(old as nat), false)]
    }
}

/// The comment column of a list item: the unresolved threads (seen, then
/// "+" and the new ones), "/", the number of threads that can be resolved,
/// " (", the conversational comments in the same way, and ") ".
pub open spec fn spec_comment_pieces(pr: PullRequest) -> Seq<(Seq<char>, bool)> {
    let d = spec_comment_delta(pr);
    count_texts(d.unresolved_old, d.unresolved_new)
        + seq![("/"@ + decimal(pr.total_resolvable_count as nat) + " ("@, false)]
        + count_texts(d.conversational_old, d.conversational_new)
        + seq![(") "@, false)]
}

/// The views of the pieces.
pub open spec fn piece_views(v: Seq<CountPiece>) -> Seq<(Seq<char>, bool)> {
    v.map_values(|p: CountPiece| (p.text@, p.fresh))
}

/// Adds the pieces of a count (see `count_texts`).
fn push_count(v: &mut Vec<CountPiece>, seen: u32, new: u32)
    ensures
        piece_views(final(v)@) == piece_views(old(v)@) + count_texts(seen, new),
{
    let ghost before = piece_views(v@);
    v.push(CountPiece { text: decimal_string(seen as u128), fresh: false });
    if new > 0 {
        let mut t = String::new();
        push_char(&mut t, '+');
        let n = decimal_string(new as u128);
        push_str(&mut t, n.as_str());
        proof { assert(t@ =~= "+"@ + decimal(new as nat)) by { reveal_strlit("+"); } }
        v.push(CountPiece { text: t, fresh: true });
    }
    assert(piece_views(v@) =~= before + count_texts(seen, new));
}

/// The comment column of a list item (see `spec_comment_pieces`).
pub fn comment_pieces(pr: &PullRequest) -> (r: Vec<CountPiece>)
    ensures
        piece_views(r@) == spec_comment_pieces(*pr),
{
    let d = comment_delta(pr);
    let mut v: Vec<CountPiece> = Vec::new();
    assert(piece_views(v@) =~= Seq::<(Seq<char>, bool)>::empty());
    push_count(&mut v, d.unresolved_old, d.unresolved_new);
    let ghost a = piece_views(v@);
    let mut mid = String::new();
    push_str(&mut mid, "/");
    let total = decimal_string(pr.total_resolvable_count as u128);
    push_str(&mut mid, total.as_str());
    push_str(&mut mid, " (");
    proof {
        reveal_strlit("/");
        reveal_strlit(" (");
    }
    v.push(CountPiece { text: mid, fresh: false });
    assert(piece_views(v@) =~= a + seq![("/"@ + decimal(pr.total_resolvable_count as nat) + " ("@, false)]);
    push_count(&mut v, d.conversational_old, d.conversational_new);
    let ghost b = piece_views(v@);
    v.push(CountPiece { text: String::from_str(") "), fresh: false });
    assert(piece_views(v@) =~= b + seq![(") "@, false)]);
    v
}

/// The badge of the merge state on the first line of a list item.
pub open spec fn spec_mergeable_badge(m: MergeableStatus) -> Seq<char> {
    match m {
        MergeableStatus::Mergeable => " [M] "@,
        MergeableStatus::Conflicting => " [C] "@,
        _ => " [?] "@,
    }
}

/// The merge state badge (see `spec_mergeable_badge`).
pub fn mergeable_badge(m: MergeableStatus) -> (r: &'static str)
    ensures
        r@ == spec_mergeable_badge(m),
{
    match m {
        MergeableStatus::Mergeable => " [M] ",
        MergeableStatus::Conflicting => " [C] ",
        _ => " [?] ",
    }
}

/// The columns left for the title on the first line of an item `width`
/// columns wide: the width less the borders (2), the selection bar (1), the
/// dot (2), `#N `, ` status `, ` review `, and the badge (5).
pub open spec fn spec_title_room(pr: PullRequest, width: u16) -> int {
    let used = 2 + 1 + 2 + (decimal(pr.number as nat).len() + 2) + (pr.status.spec_label().len() + 2)
        + (pr.review_status.spec_label().len() + 2) + 5;
    sub_floor(width as int, used as int)
}

/// The title shown in `room` columns: cut to `room - 1` characters and an
/// ellipsis when it is longer than `room`.
pub open spec fn spec_fit_title(title: Seq<char>, room: int) -> Seq<char> {
    if title.len() > room {
        title.take(sub_floor(room, 1)).push('…')
    } else {
        title
    }
}

/// The title of a list item fitted to `room` columns, and the spaces that
/// pad it out to `room`.
pub fn fit_title(title: &str, room: u16) -> (r: (String, usize))
    ensures
        r.0@ == spec_fit_title(title@, room as int),
        r.1 == sub_floor(room as int, r.0@.len() as int),
{
    let cs = chars_of(title);
    if cs.len() > room as usize {
        let keep: usize = if room > 0 { (room - 1) as usize } else { 0 };
        let kept = slice_chars(&cs, 0, keep);
        let mut s = string_from_chars(&kept);
        push_char(&mut s, '…');
        assert(kept@ =~= title@.take(sub_floor(room as int, 1)));
        let shown: usize = keep + 1;
        let pad: usize = if (room as usize) > shown { (room as usize) - shown } else { 0 };
        (s, pad)
    } else {
        let pad: usize = (room as usize) - cs.len();
        (string_from_chars(&cs), pad)
    }
}

/// The room for the title of an item `width` columns wide (see
/// `spec_title_room`).
pub fn title_room(pr: &PullRequest, width: u16) -> (r: u16)
    ensures
        r == spec_title_room(*pr, width),
{
    let digits = crate::util::text::decimal_chars(pr.number as u128);
    let status = chars_of(pr.status.label());
    let review = chars_of(pr.review_status.label());
    let used: u128 = 2 + 1 + 2 + (digits.len() as u128 + 2) + (status.len() as u128 + 2)
        + (review.len() as u128 + 2) + 5;
    if (width as u128) > used {
        ((width as u128) - used) as u16
    } else {
        0
    }
}

} // verus!
