//! A set of names that can be walked through.
use crate::model::{lemma_push_contains, Dup};
use crate::text::{same, starts_with};
use vstd::prelude::*;

verus! {

/// A set of names.
pub struct IdSet {
    ids: Vec<String>,
}

impl View for IdSet {
    type V = Set<Seq<char>>;

    closed spec fn view(&self) -> Set<Seq<char>> {
        self.ids.deep_view().to_set()
    }
}

impl IdSet {
    /// No names.
    pub fn new() -> (res: IdSet)
        ensures
            res@ == Set::<Seq<char>>::empty(),
    {
        let res = IdSet { ids: Vec::new() };
        assert(res@ =~= Set::<Seq<char>>::empty());
        res
    }

    /// Whether a name is in the set.
    pub fn contains(&self, id: &str) -> (res: bool)
        ensures
            res == self@.contains(id@),
    {
        let ghost all = self.ids.deep_view();
        let mut i: usize = 0;
        while i < self.ids.len()
            invariant
                i <= self.ids.len(),
                all == self.ids.deep_view(),
                forall|j: int| 0 <= j < i ==> #[trigger] all[j] != id@,
            decreases self.ids.len() - i,
        {
            if same(self.ids[i].as_str(), id) {
                assert(all[i as int] == id@);
                return true;
            }
            assert(all[i as int] != id@);
            i += 1;
        }
        false
    }

    /// Puts a name in the set.
    pub fn insert(&mut self, id: String)
        ensures
            final(self)@ == old(self)@.insert(id@),
    {
        let ghost before = self.ids.deep_view();
        let ghost set = self@;
        if !self.contains(id.as_str()) {
            self.ids.push(id);
            let ghost after = self.ids.deep_view();
            assert(after =~= before.push(id@));
            assert forall|x: Seq<char>| after.contains(x) <==> (before.contains(x) || x == id@) by {
                if before.contains(x) {
                    let i = choose|i: int| 0 <= i < before.len() && before[i] == x;
                    assert(after[i] == x);
                }
                if x == id@ {
                    assert(after[before.len() as int] == x);
                }
                if after.contains(x) {
                    let i = choose|i: int| 0 <= i < after.len() && after[i] == x;
                    if i < before.len() {
                        assert(before[i] == x);
                    }
                }
            }
            assert(self@ =~= set.insert(id@));
        } else {
            assert(self@ =~= set.insert(id@));
        }
    }

    /// Takes a name out of the set.
    pub fn remove(&mut self, id: &str)
        ensures
            final(self)@ == old(self)@.remove(id@),
    {
        let ghost set = self@;
        let ghost all = self.ids.deep_view();
        let mut kept: Vec<String> = Vec::new();
        let mut i: usize = 0;
        while i < self.ids.len()
            invariant
                i <= self.ids.len(),
                all == self.ids.deep_view(),
                forall|x: Seq<char>|
                    #[trigger] kept.deep_view().contains(x) <==> x != id@ && all.take(
                        i as int,
                    ).contains(x),
            decreases self.ids.len() - i,
        {
            let ghost before = kept.deep_view();
            let ghost name = self.ids[i as int]@;
            let keep = !same(self.ids[i].as_str(), id);
            if keep {
                kept.push(self.ids[i].dup());
            }
            proof {
                lemma_keep_one(before, kept.deep_view(), all, i as int, name, keep, id@);
            }
            i += 1;
        }
        self.ids = kept;
        assert(all.take(i as int) =~= all);
        assert(self@ =~= set.remove(id@));
    }

    /// Whether there are no names.
    pub fn is_empty(&self) -> (res: bool)
        ensures
            res == (self@ == Set::<Seq<char>>::empty()),
            res == (self.listed().len() == 0),
    {
        let ghost all = self.ids.deep_view();
        if self.ids.len() == 0 {
            assert(self@ =~= Set::<Seq<char>>::empty());
            true
        } else {
            assert(all.contains(all[0]));
            assert(self@.contains(all[0]));
            false
        }
    }

    /// The names as a list.
    pub fn to_list(&self) -> (res: Vec<String>)
        ensures
            res.deep_view() == self.listed(),
    {
        self.ids.dup()
    }

    /// How many places there are.
    pub fn len(&self) -> (res: usize)
        ensures
            res == self.listed().len(),
    {
        self.ids.len()
    }

    /// The names in the order in which they can be walked through.
    pub closed spec fn listed(&self) -> Seq<Seq<char>> {
        self.ids.deep_view()
    }

    /// The names that can be walked through are those in the set.
    pub proof fn lemma_listed(&self)
        ensures
            forall|x: Seq<char>| self@.contains(x) <==> self.listed().contains(x),
    {
    }

    /// The name at a place.
    pub fn get(&self, i: usize) -> (res: &String)
        requires
            i < self.listed().len(),
        ensures
            res@ == self.listed()[i as int],
    {
        &self.ids[i]
    }

    /// Takes every name with a given start out of the set.
    pub fn remove_prefixed(&mut self, start: &str)
        ensures
            forall|x: Seq<char>|
                #[trigger] final(self)@.contains(x) <==> old(self)@.contains(x)
                    && !start@.is_prefix_of(x),
    {
        let ghost all = self.ids.deep_view();
        let mut kept: Vec<String> = Vec::new();
        let mut i: usize = 0;
        while i < self.ids.len()
            invariant
                i <= self.ids.len(),
                all == self.ids.deep_view(),
                forall|x: Seq<char>|
                    #[trigger] kept.deep_view().contains(x) <==> !start@.is_prefix_of(x)
                        && all.take(i as int).contains(x),
            decreases self.ids.len() - i,
        {
            let ghost before = kept.deep_view();
            let ghost name = self.ids[i as int]@;
            let keep = !starts_with(self.ids[i].as_str(), start);
            if keep {
                kept.push(self.ids[i].dup());
            }
            proof {
                let after = kept.deep_view();
                let upto = all.take(i + 1);
                assert(upto =~= all.take(i as int).push(name));
                if keep {
                    assert(after =~= before.push(name));
                }
                assert forall|x: Seq<char>|
                    #[trigger] after.contains(x) <==> !start@.is_prefix_of(x) && upto.contains(
                        x,
                    ) by {
                    lemma_push_contains(before, name, x);
                    lemma_push_contains(all.take(i as int), name, x);
                }
            }
            i += 1;
        }
        self.ids = kept;
        assert(all.take(i as int) =~= all);
    }
}

proof fn lemma_keep_one(
    before: Seq<Seq<char>>,
    after: Seq<Seq<char>>,
    all: Seq<Seq<char>>,
    i: int,
    name: Seq<char>,
    keep: bool,
    id: Seq<char>,
)
    requires
        0 <= i < all.len(),
        all[i] == name,
        keep == (name != id),
        keep ==> after =~= before.push(name),
        !keep ==> after == before,
        forall|x: Seq<char>|
            #[trigger] before.contains(x) <==> x != id && all.take(i).contains(x),
    ensures
        forall|x: Seq<char>|
            #[trigger] after.contains(x) <==> x != id && all.take(i + 1).contains(x),
{
    assert(all.take(i + 1) =~= all.take(i).push(name));
    assert forall|x: Seq<char>|
        #[trigger] after.contains(x) <==> x != id && all.take(i + 1).contains(x) by {
        lemma_push_contains(before, name, x);
        lemma_push_contains(all.take(i), name, x);
    }
}

} // verus!
