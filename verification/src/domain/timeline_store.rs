//! The fetched timelines of the followed pull requests, by pull request id.
use vstd::prelude::*;
use crate::domain::pr::TimelineEvent;
use crate::util::text::str_eq;

verus! {

/// A map from pull request id to its timeline; each id is held once.
pub struct TimelineStore {
    entries: Vec<(String, Vec<TimelineEvent>)>,
}

impl View for TimelineStore {
    type V = Map<Seq<char>, Seq<TimelineEvent>>;

    closed spec fn view(&self) -> Map<Seq<char>, Seq<TimelineEvent>> {
        Map::new(
            |k: Seq<char>| exists|i: int| 0 <= i < self.entries@.len() && #[trigger] self.entries@[i].0@ == k,
            |k: Seq<char>| {
                let i = choose|i: int| 0 <= i < self.entries@.len() && #[trigger] self.entries@[i].0@ == k;
                self.entries@[i].1@
            },
        )
    }
}

/// The timeline held for `id`, or none.
pub open spec fn timeline_of(m: Map<Seq<char>, Seq<TimelineEvent>>, id: Seq<char>) -> Seq<TimelineEvent> {
    if m.dom().contains(id) { m[id] } else { Seq::empty() }
}

impl TimelineStore {
    #[verifier::type_invariant]
    closed spec fn inv(self) -> bool {
        forall|i: int, j: int| 0 <= i < j < self.entries@.len()
            ==> #[trigger] self.entries@[i].0@ != #[trigger] self.entries@[j].0@
    }

    proof fn lemma_lookup(&self, i: int)
        requires
            self.inv(),
            0 <= i < self.entries@.len(),
        ensures
            self@.dom().contains(self.entries@[i].0@),
            self@[self.entries@[i].0@] == self.entries@[i].1@,
    {
        let k = self.entries@[i].0@;
        let j = choose|j: int| 0 <= j < self.entries@.len() && #[trigger] self.entries@[j].0@ == k;
        if j < i {
            assert(self.entries@[j].0@ != self.entries@[i].0@);
        } else if i < j {
            assert(self.entries@[i].0@ != self.entries@[j].0@);
        }
    }

    /// An empty store.
    pub fn new() -> (r: TimelineStore)
        ensures
            r@ == Map::<Seq<char>, Seq<TimelineEvent>>::empty(),
    {
        let r = TimelineStore { entries: Vec::new() };
        assert(r@ =~= Map::<Seq<char>, Seq<TimelineEvent>>::empty());
        r
    }

    /// The position of `id`, if it is held.
    fn position(&self, id: &str) -> (r: Option<usize>)
        ensures
            r matches Some(i) ==> i < self.entries@.len() && self.entries@[i as int].0@ == id@,
            r is None ==> !self@.dom().contains(id@),
    {
        let mut i: usize = 0;
        while i < self.entries.len()
            invariant
                i <= self.entries@.len(),
                forall|j: int| 0 <= j < i ==> #[trigger] self.entries@[j].0@ != id@,
            decreases self.entries.len() - i,
        {
            if str_eq(self.entries[i].0.as_str(), id) {
                return Some(i);
            }
            i = i + 1;
        }
        None
    }

    /// The timeline held for `id`, if any.
    pub fn get(&self, id: &str) -> (r: Option<&Vec<TimelineEvent>>)
        ensures
            r matches Some(v) ==> self@.dom().contains(id@) && v@ == self@[id@],
            r is None ==> !self@.dom().contains(id@),
    {
        proof { use_type_invariant(self); }
        match self.position(id) {
            Some(i) => {
                proof { self.lemma_lookup(i as int); }
                Some(&self.entries[i].1)
            },
            None => None,
        }
    }

    /// Holds `events` as the timeline of `id`, replacing any earlier one.
    pub fn insert(&mut self, id: String, events: Vec<TimelineEvent>)
        ensures
            final(self)@ == old(self)@.insert(id@, events@),
    {
        proof { use_type_invariant(&*self); }
        let ghost k = id@;
        let ghost v = events@;
        let pos = self.position(id.as_str());
        let mut entries: Vec<(String, Vec<TimelineEvent>)> = Vec::new();
        std::mem::swap(&mut entries, &mut self.entries);
        let ghost before = entries@;
        match pos {
            Some(i) => {
                entries.set(i, (id, events));
                proof {
                    assert forall|a: int, b: int| 0 <= a < b < entries@.len()
                        implies #[trigger] entries@[a].0@ != #[trigger] entries@[b].0@ by {
                        if a != i as int && b != i as int {
                            assert(before[a].0@ != before[b].0@);
                        } else if a == i as int {
                            assert(before[a].0@ != before[b].0@);
                        } else {
                            assert(before[a].0@ != before[b].0@);
                        }
                    }
                }
            },
            None => {
                entries.push((id, events));
            },
        }
        self.entries = entries;
        proof {
            use_type_invariant(&*self);
            let m = self@;
            let o = old(self)@;
            assert forall|key: Seq<char>| m.dom().contains(key) <==> o.insert(k, v).dom().contains(key) by {
                if o.dom().contains(key) && key != k {
                    let j = choose|j: int| 0 <= j < before.len() && #[trigger] before[j].0@ == key;
                    assert(self.entries@[j].0@ == key);
                }
                if m.dom().contains(key) && key != k {
                    let j = choose|j: int| 0 <= j < self.entries@.len() && #[trigger] self.entries@[j].0@ == key;
                    if j < before.len() {
                        assert(before[j].0@ == key);
                    }
                }
                if key == k {
                    let last = match pos { Some(i) => i as int, None => before.len() as int };
                    assert(self.entries@[last].0@ == k);
                }
            }
            assert forall|key: Seq<char>| #[trigger] m.dom().contains(key) implies m[key] == o.insert(k, v)[key] by {
                let j = choose|j: int| 0 <= j < self.entries@.len() && #[trigger] self.entries@[j].0@ == key;
                self.lemma_lookup(j);
                if key != k {
                    assert(j < before.len());
                    assert(before[j].0@ == key);
                    assert(before[j] == self.entries@[j]);
                    old(self).lemma_lookup(j);
                }
            }
            assert(m =~= o.insert(k, v));
        }
    }
}

} // verus!
