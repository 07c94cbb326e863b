//! A set of tag ids kept in ascending order, as an ordered set walks them.

use vstd::prelude::*;

verus! {

/// Every element smaller than every later one.
pub open spec fn strictly_ascending(s: Seq<i64>) -> bool {
    forall|i: int, j: int| 0 <= i < j < s.len() ==> s[i] < s[j]
}

/// Distinct tag ids, ascending.
pub struct TagIdSet {
    ids: Vec<i64>,
}

impl View for TagIdSet {
    type V = Seq<i64>;

    closed spec fn view(&self) -> Seq<i64> {
        self.ids@
    }
}

impl TagIdSet {
    /// Well-formed: the ids ascend strictly.
    pub closed spec fn wf(&self) -> bool {
        strictly_ascending(self.ids@)
    }

    /// A well-formed set ascends strictly.
    pub proof fn lemma_wf_ascending(&self)
        requires
            self.wf(),
        ensures
            strictly_ascending(self@),
    {
    }

    /// The empty set.
    pub fn new() -> (r: Self)
        ensures
            r.wf(),
            r@ == Seq::<i64>::empty(),
    {
        TagIdSet { ids: Vec::new() }
    }

    /// Adds `id`; nothing changes when it is there already.
    pub fn insert(&mut self, id: i64)
        requires
            old(self).wf(),
        ensures
            final(self).wf(),
            forall|x: i64| final(self)@.contains(x) <==> (old(self)@.contains(x) || x == id),
    {
        let n = self.ids.len();
        let mut p: usize = 0;
        while p < n && self.ids[p] < id
            invariant
                n == self.ids.len(),
                self.ids@ == old(self).ids@,
                p <= n,
                strictly_ascending(self.ids@),
                forall|k: int| 0 <= k < p ==> self.ids@[k] < id,
            decreases n - p,
        {
            p = p + 1;
        }
        if p < n && self.ids[p] == id {
            assert(self.ids@[p as int] == id);
            assert(self.ids@.contains(id));
            return;
        }
        let ghost before = self.ids@;
        self.ids.insert(p, id);
        proof {
            assert(self.ids@ =~= before.take(p as int).push(id) + before.skip(p as int));
            assert forall|i: int, j: int| 0 <= i < j < self.ids@.len() implies self.ids@[i]
                < self.ids@[j] by {
                if j < p {
                    assert(self.ids@[i] == before[i] && self.ids@[j] == before[j]);
                } else if j == p {
                    assert(self.ids@[i] == before[i]);
                } else if i < p {
                    assert(self.ids@[i] == before[i] && self.ids@[j] == before[j - 1]);
                    assert(before[j - 1] >= id);
                } else if i == p {
                    assert(self.ids@[j] == before[j - 1]);
                    assert(before[j - 1] >= before[p as int]);
                } else {
                    assert(self.ids@[i] == before[i - 1] && self.ids@[j] == before[j - 1]);
                }
            }
            assert forall|x: i64| self.ids@.contains(x) <==> (before.contains(x) || x == id) by {
                if self.ids@.contains(x) {
                    let k = choose|k: int| 0 <= k < self.ids@.len() && self.ids@[k] == x;
                    if k < p {
                        assert(before[k] == x);
                    } else if k > p {
                        assert(before[k - 1] == x);
                    }
                }
                if before.contains(x) {
                    let k = choose|k: int| 0 <= k < before.len() && before[k] == x;
                    if k < p {
                        assert(self.ids@[k] == x);
                    } else {
                        assert(self.ids@[k + 1] == x);
                    }
                }
                if x == id {
                    assert(self.ids@[p as int] == x);
                }
            }
            assert(before == old(self)@);
            assert(forall|x: i64| self@.contains(x) <==> (old(self)@.contains(x) || x == id));
        }
    }

    /// Number of ids.
    pub fn len(&self) -> (r: usize)
        ensures
            r == self@.len(),
    {
        self.ids.len()
    }

    /// The `i`-th smallest id.
    pub fn get(&self, i: usize) -> (r: i64)
        requires
            i < self@.len(),
        ensures
            r == self@[i as int],
    {
        self.ids[i]
    }

    /// The ids, smallest first.
    pub fn to_vec(&self) -> (r: Vec<i64>)
        ensures
            r@ == self@,
    {
        self.ids.clone()
    }
}

} // verus!
