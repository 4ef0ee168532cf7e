//! The list of pull requests shown, its selection, and its grouping.
use vstd::prelude::*;
use crate::domain::pr::PullRequest;
use crate::config::{AppConfig, GroupMode};
use crate::util::text::{str_eq, chars_eq, chars_of, string_from_chars};

verus! {

/// A list of pull requests with a selected position.
pub struct PRList {
    prs: Vec<PullRequest>,
    selected_index: usize,
}

/// One section of the grouped list: its heading and its pull requests.
pub struct PrGroup<'a> {
    pub name: String,
    pub prs: Vec<&'a PullRequest>,
}

impl<'a> PrGroup<'a> {
    /// The pull requests of the group, as values.
    pub open spec fn members(&self) -> Seq<PullRequest> {
        self.prs@.map_values(|p: &PullRequest| *p)
    }
}

/// The selection after the list changed to `len` items when the old
/// selection was `sel`: kept if still in range, else the last item (or kept
/// when the list is empty).
pub open spec fn clamp_selection(sel: int, len: int) -> int {
    if sel >= len && len > 0 { len - 1 } else { sel }
}

/// `j` is the first position of a pull request with the given id.
pub open spec fn first_with_id(prs: Seq<PullRequest>, id: Seq<char>, j: int) -> bool {
    0 <= j < prs.len() && prs[j].id@ == id && forall|i: int| 0 <= i < j ==> #[trigger] prs[i].id@ != id
}

/// Some pull request has the given id.
pub open spec fn has_id(prs: Seq<PullRequest>, id: Seq<char>) -> bool {
    exists|i: int| 0 <= i < prs.len() && #[trigger] prs[i].id@ == id
}

impl PRList {
    /// The pull requests, in order.
    pub closed spec fn spec_prs(&self) -> Seq<PullRequest> {
        self.prs@
    }

    /// The selected position.
    pub closed spec fn spec_selected(&self) -> int {
        self.selected_index as int
    }

    /// A list of the given pull requests with the first one selected.
    pub fn new(prs: Vec<PullRequest>) -> (r: PRList)
        ensures
            r.spec_prs() == prs@,
            r.spec_selected() == 0,
    {
        PRList { prs, selected_index: 0 }
    }

    /// The pull requests.
    pub fn items(&self) -> (r: &[PullRequest])
        ensures
            r@ == self.spec_prs(),
    {
        self.prs.as_slice()
    }

    /// The pull requests, for in-place changes; the selection stays.
    pub fn items_mut(&mut self) -> (r: &mut Vec<PullRequest>)
        ensures
            r@ == old(self).spec_prs(),
            final(self).spec_prs() == final(r)@,
            final(self).spec_selected() == old(self).spec_selected(),
    {
        &mut self.prs
    }

    /// The selected position.
    pub fn selected_index(&self) -> (r: usize)
        ensures
            r == self.spec_selected(),
    {
        self.selected_index
    }

    /// Selects `index`, or the last item when it is past the end (0 when empty).
    pub fn set_selected_index(&mut self, index: usize)
        ensures
            final(self).spec_prs() == old(self).spec_prs(),
            final(self).spec_selected() == (if index < old(self).spec_prs().len() {
                index as int
            } else if old(self).spec_prs().len() > 0 {
                old(self).spec_prs().len() - 1
            } else {
                0
            }),
    {
        if index < self.prs.len() {
            self.selected_index = index;
        } else if self.prs.len() > 0 {
            self.selected_index = self.prs.len() - 1;
        } else {
            self.selected_index = 0;
        }
    }

    /// Moves the selection down by one unless it is on the last item.
    pub fn select_next(&mut self)
        ensures
            final(self).spec_prs() == old(self).spec_prs(),
            final(self).spec_selected() == (if old(self).spec_prs().len() > 0
                && old(self).spec_selected() < old(self).spec_prs().len() - 1 {
                old(self).spec_selected() + 1
            } else {
                old(self).spec_selected()
            }),
    {
        if self.prs.len() > 0 && self.selected_index < self.prs.len() - 1 {
            self.selected_index = self.selected_index + 1;
        }
    }

    /// Moves the selection up by one unless it is on the first item.
    pub fn select_prev(&mut self)
        ensures
            final(self).spec_prs() == old(self).spec_prs(),
            final(self).spec_selected() == (if old(self).spec_selected() > 0 {
                old(self).spec_selected() - 1
            } else {
                old(self).spec_selected()
            }),
    {
        if self.selected_index > 0 {
            self.selected_index = self.selected_index - 1;
        }
    }

    /// The selected pull request, if the selection is in range.
    pub fn selected_pr(&self) -> (r: Option<&PullRequest>)
        ensures
            self.spec_selected() < self.spec_prs().len() ==> r == Some(&self.spec_prs()[self.spec_selected()]),
            self.spec_selected() >= self.spec_prs().len() ==> r is None,
    {
        if self.selected_index < self.prs.len() {
            Some(&self.prs[self.selected_index])
        } else {
            None
        }
    }

    /// Removes and returns the selected pull request; the selection moves to
    /// the new last item if it fell off the end.
    pub fn remove_selected(&mut self) -> (r: Option<PullRequest>)
        ensures
            old(self).spec_selected() < old(self).spec_prs().len() ==> {
                &&& r == Some(old(self).spec_prs()[old(self).spec_selected()])
                &&& final(self).spec_prs() == old(self).spec_prs().remove(old(self).spec_selected())
                &&& final(self).spec_selected() == clamp_selection(old(self).spec_selected(),
                    old(self).spec_prs().len() - 1)
            },
            old(self).spec_selected() >= old(self).spec_prs().len() ==> {
                &&& r is None
                &&& final(self).spec_prs() == old(self).spec_prs()
                &&& final(self).spec_selected() == old(self).spec_selected()
            },
    {
        if self.selected_index < self.prs.len() {
            let pr = self.prs.remove(self.selected_index);
            if self.selected_index >= self.prs.len() && self.prs.len() > 0 {
                self.selected_index = self.prs.len() - 1;
            }
            Some(pr)
        } else {
            None
        }
    }

    /// Puts a pull request first; the selected position stays.
    pub fn insert_at_front(&mut self, pr: PullRequest)
        ensures
            final(self).spec_prs() == seq![pr] + old(self).spec_prs(),
            final(self).spec_selected() == old(self).spec_selected(),
    {
        self.prs.insert(0, pr);
        assert(self.prs@ =~= seq![pr] + old(self).prs@);
    }

    /// Replaces the pull requests. The pull request that was selected stays
    /// selected where it is still listed (its first occurrence by id);
    /// otherwise the selection is kept, moved to the last item if it fell
    /// off the end.
    pub fn set_prs(&mut self, prs: Vec<PullRequest>)
        ensures
            final(self).spec_prs() == prs@,
            ({
                let old_sel = old(self).spec_selected();
                let old_prs = old(self).spec_prs();
                if old_sel < old_prs.len() && has_id(prs@, old_prs[old_sel].id@) {
                    first_with_id(prs@, old_prs[old_sel].id@, final(self).spec_selected())
                } else {
                    final(self).spec_selected() == clamp_selection(old_sel, prs@.len() as int)
                }
            }),
    {
        let old_id: Option<Vec<char>> = match self.selected_pr() {
            Some(p) => Some(chars_of(p.id.as_str())),
            None => None,
        };
        self.prs = prs;
        match old_id {
            Some(id) => {
                let mut j: usize = 0;
                while j < self.prs.len()
                    invariant
                        j <= self.prs.len(),
                        self.prs@ == prs@,
                        self.selected_index == old(self).selected_index,
                        old(self).selected_index < old(self).prs@.len(),
                        id@ == old(self).prs@[old(self).selected_index as int].id@,
                        forall|i: int| 0 <= i < j ==> #[trigger] prs@[i].id@ != id@,
                    decreases self.prs.len() - j,
                {
                    let cid = chars_of(self.prs[j].id.as_str());
                    if chars_eq(&cid, &id) {
                        self.selected_index = j;
                        return;
                    }
                    j = j + 1;
                }
                assert(!has_id(prs@, id@));
                if self.selected_index >= self.prs.len() && self.prs.len() > 0 {
                    self.selected_index = self.prs.len() - 1;
                }
            },
            None => {
                if self.selected_index >= self.prs.len() && self.prs.len() > 0 {
                    self.selected_index = self.prs.len() - 1;
                }
            },
        }
    }

    /// The grouped view of the list (see `get_grouped_items`).
    pub fn get_grouped_items<'a>(&'a self, config: &AppConfig) -> (r: Vec<PrGroup<'a>>)
        ensures
            group_views(r@) == spec_grouped(self.spec_prs(), config.group_by, config.current_user@),
    {
        get_grouped_items(self.prs.as_slice(), config)
    }
}

/// The heading a pull request is grouped under.
pub open spec fn spec_group_name(pr: PullRequest, mode: GroupMode, user: Seq<char>) -> Seq<char> {
    match mode {
        GroupMode::Ungrouped => "All PRs"@,
        GroupMode::Repo => pr.repo@,
        GroupMode::Author => pr.author@,
        GroupMode::Status => pr.status.spec_label(),
        GroupMode::MyVsOther => if pr.author@ == user { "Mine"@ } else { "Others"@ },
    }
}

/// The state of the grouping pass: the groups closed so far, and the
/// heading and members of the open group.
pub struct GroupFold {
    pub groups: Seq<(Seq<char>, Seq<PullRequest>)>,
    pub name: Seq<char>,
    pub cur: Seq<PullRequest>,
}

/// One step of the grouping pass: a pull request whose heading differs from
/// the open group's closes that group and opens its own. While the open
/// heading is empty, the next pull request names it.
pub open spec fn fold_step(st: GroupFold, pr: PullRequest, name: Seq<char>) -> GroupFold {
    let cname = if st.name.len() == 0 { name } else { st.name };
    if name != cname {
        GroupFold { groups: st.groups.push((cname, st.cur)), name: name, cur: seq![pr] }
    } else {
        GroupFold { groups: st.groups, name: cname, cur: st.cur.push(pr) }
    }
}

/// The grouping pass over a list.
pub open spec fn fold_groups(prs: Seq<PullRequest>, mode: GroupMode, user: Seq<char>) -> GroupFold
    decreases prs.len(),
{
    if prs.len() == 0 {
        GroupFold { groups: Seq::empty(), name: Seq::empty(), cur: Seq::empty() }
    } else {
        fold_step(fold_groups(prs.drop_last(), mode, user), prs.last(), spec_group_name(prs.last(), mode, user))
    }
}

/// The groups of a list: one "All PRs" group when ungrouped or empty; else
/// consecutive pull requests with the same heading form a group.
pub open spec fn spec_grouped(prs: Seq<PullRequest>, mode: GroupMode, user: Seq<char>) -> Seq<(Seq<char>, Seq<PullRequest>)> {
    if mode == GroupMode::Ungrouped || prs.len() == 0 {
        seq![("All PRs"@, prs)]
    } else {
        let f = fold_groups(prs, mode, user);
        if f.cur.len() > 0 { f.groups.push((f.name, f.cur)) } else { f.groups }
    }
}

/// The groups as headings and member lists.
pub open spec fn group_views<'a>(gs: Seq<PrGroup<'a>>) -> Seq<(Seq<char>, Seq<PullRequest>)> {
    gs.map_values(|g: PrGroup<'a>| (g.name@, g.members()))
}

/// The members of the groups, one group after the other.
pub open spec fn flatten(gs: Seq<(Seq<char>, Seq<PullRequest>)>) -> Seq<PullRequest>
    decreases gs.len(),
{
    if gs.len() == 0 {
        Seq::empty()
    } else {
        flatten(gs.drop_last()) + gs.last().1
    }
}

/// The heading of a pull request.
fn group_name(pr: &PullRequest, mode: GroupMode, user: &str) -> (r: String)
    ensures
        r@ == spec_group_name(*pr, mode, user@),
{
    match mode {
        GroupMode::Ungrouped => String::from_str("All PRs"),
        GroupMode::Repo => pr.repo.clone(),
        GroupMode::Author => pr.author.clone(),
        GroupMode::Status => String::from_str(pr.status.label()),
        GroupMode::MyVsOther => if str_eq(pr.author.as_str(), user) {
            String::from_str("Mine")
        } else {
            String::from_str("Others")
        },
    }
}

/// Splits the list into sections under `config.group_by`.
pub fn get_grouped_items<'a>(prs: &'a [PullRequest], config: &AppConfig) -> (r: Vec<PrGroup<'a>>)
    ensures
        group_views(r@) == spec_grouped(prs@, config.group_by, config.current_user@),
{
    let mode = config.group_by;
    let user = config.current_user.as_str();
    if mode == GroupMode::Ungrouped || prs.len() == 0 {
        let mut all: Vec<&'a PullRequest> = Vec::new();
        let mut i: usize = 0;
        while i < prs.len()
            invariant
                i <= prs.len(),
                all@.map_values(|p: &PullRequest| *p) == prs@.take(i as int),
            decreases prs.len() - i,
        {
            let ghost before = all@;
            all.push(&prs[i]);
            assert(all@ == before.push(&prs@[i as int]));
            assert(all@.map_values(|p: &PullRequest| *p) =~= before.map_values(|p: &PullRequest| *p).push(prs@[i as int]));
            assert(prs@.take(i + 1) =~= prs@.take(i as int).push(prs@[i as int]));
            i = i + 1;
        }
        assert(prs@.take(prs.len() as int) =~= prs@);
        let mut out: Vec<PrGroup<'a>> = Vec::new();
        out.push(PrGroup { name: String::from_str("All PRs"), prs: all });
        assert(group_views(out@) =~= spec_grouped(prs@, mode, user@));
        return out;
    }

    let mut groups: Vec<PrGroup<'a>> = Vec::new();
    let mut current_name: Vec<char> = Vec::new();
    let mut current_prs: Vec<&'a PullRequest> = Vec::new();
    let mut i: usize = 0;
    while i < prs.len()
        invariant
            i <= prs.len(),
            mode == config.group_by,
            user@ == config.current_user@,
            ({
                let f = fold_groups(prs@.take(i as int), mode, user@);
                &&& group_views(groups@) == f.groups
                &&& current_name@ == f.name
                &&& current_prs@.map_values(|p: &PullRequest| *p) == f.cur
            }),
        decreases prs.len() - i,
    {
        let pr = &prs[i];
        let name_s = group_name(pr, mode, user);
        let name = chars_of(name_s.as_str());
        assert(prs@.take(i + 1).drop_last() =~= prs@.take(i as int));
        assert(prs@.take(i + 1).last() == prs@[i as int]);
        if current_name.len() == 0 {
            current_name = chars_of(name_s.as_str());
        }
        if !chars_eq(&name, &current_name) {
            let mut closed_prs: Vec<&'a PullRequest> = Vec::new();
            std::mem::swap(&mut closed_prs, &mut current_prs);
            let ghost before = group_views(groups@);
            groups.push(PrGroup { name: string_from_chars(&current_name), prs: closed_prs });
            assert(group_views(groups@) =~= before.push((current_name@, closed_prs@.map_values(|p: &PullRequest| *p))));
            current_name = name;
        }
        let ghost cur_before = current_prs@;
        current_prs.push(pr);
        assert(current_prs@.map_values(|p: &PullRequest| *p) =~= cur_before.map_values(|p: &PullRequest| *p).push(*pr));
        i = i + 1;
    }
    assert(prs@.take(prs.len() as int) =~= prs@);
    if current_prs.len() > 0 {
        let ghost before = group_views(groups@);
        let ghost members = current_prs@.map_values(|p: &PullRequest| *p);
        groups.push(PrGroup { name: string_from_chars(&current_name), prs: current_prs });
        assert(group_views(groups@) =~= before.push((current_name@, members)));
    } else {
        assert(current_prs@.map_values(|p: &PullRequest| *p) =~= Seq::<PullRequest>::empty());
    }
    groups
}

/// Grouping keeps every pull request exactly once and in order: the groups'
/// members, one group after the other, are the list.
pub proof fn lemma_grouping_keeps_order(prs: Seq<PullRequest>, mode: GroupMode, user: Seq<char>)
    ensures
        flatten(spec_grouped(prs, mode, user)) == prs,
{
    if mode == GroupMode::Ungrouped || prs.len() == 0 {
        let gs = seq![("All PRs"@, prs)];
        assert(gs.drop_last() =~= Seq::<(Seq<char>, Seq<PullRequest>)>::empty());
        assert(flatten(gs.drop_last()) == Seq::<PullRequest>::empty());
        assert(flatten(gs) == flatten(gs.drop_last()) + gs.last().1);
        assert(flatten(gs) =~= prs);
    } else {
        lemma_fold_flatten(prs, mode, user);
        let f = fold_groups(prs, mode, user);
        if f.cur.len() > 0 {
            assert(f.groups.push((f.name, f.cur)).drop_last() =~= f.groups);
        }
        assert(flatten(spec_grouped(prs, mode, user)) =~= prs);
    }
}

/// During the pass, the closed groups then the open one hold the prefix read so far.
proof fn lemma_fold_flatten(prs: Seq<PullRequest>, mode: GroupMode, user: Seq<char>)
    ensures
        flatten(fold_groups(prs, mode, user).groups) + fold_groups(prs, mode, user).cur == prs,
    decreases prs.len(),
{
    if prs.len() == 0 {
        assert(flatten(Seq::<(Seq<char>, Seq<PullRequest>)>::empty()) + Seq::<PullRequest>::empty() =~= prs);
    } else {
        let rest = prs.drop_last();
        lemma_fold_flatten(rest, mode, user);
        let st = fold_groups(rest, mode, user);
        let name = spec_group_name(prs.last(), mode, user);
        let cname = if st.name.len() == 0 { name } else { st.name };
        if name != cname {
            assert(st.groups.push((cname, st.cur)).drop_last() =~= st.groups);
            assert(flatten(st.groups.push((cname, st.cur))) == flatten(st.groups) + st.cur);
            assert(flatten(st.groups) + st.cur + seq![prs.last()] =~= prs);
        } else {
            assert(rest.push(prs.last()) =~= prs);
            assert(flatten(st.groups) + st.cur.push(prs.last()) =~= (flatten(st.groups) + st.cur).push(prs.last()));
        }
    }
}

} // verus!
