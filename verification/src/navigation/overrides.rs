//! Corrections to the detected ways between floors.

use vstd::prelude::*;

use crate::navigation::walkability::{Tile, WalkabilityGrid};

verus! {

/// Tiles to mark, and tiles to take the mark off, after the detection.
#[derive(Clone, Debug)]
pub struct Overrides {
    pub add: Vec<Tile>,
    pub remove: Vec<Tile>,
}

impl Default for Overrides {
    fn default() -> (r: Overrides)
        ensures
            r.add@.len() == 0,
            r.remove@.len() == 0,
    {
        Overrides { add: Vec::new(), remove: Vec::new() }
    }
}

/// A set with one more element.
proof fn one_more(list: Seq<Tile>, i: int)
    requires
        0 <= i < list.len(),
    ensures
        list.take(i + 1).to_set() == list.take(i).to_set().insert(list[i]),
{
    let less = list.take(i);
    let more = list.take(i + 1);
    assert forall|t: Tile| more.to_set().contains(t) == less.to_set().insert(list[i]).contains(
        t,
    ) by {
        if less.contains(t) {
            let k = choose|k: int| 0 <= k < less.len() && less[k] == t;
            assert(more[k] == t);
        }
        if t == list[i] {
            assert(more[i] == t);
        }
        if more.contains(t) && t != list[i] {
            let k = choose|k: int| 0 <= k < more.len() && more[k] == t;
            assert(less[k] == t);
        }
    }
    assert(more.to_set() =~= less.to_set().insert(list[i]));
}

impl Overrides {
    /// Corrects a grid; returns how many tiles were newly marked, and from how many the mark
    /// was taken.
    pub fn apply(&self, grid: &mut WalkabilityGrid) -> (r: (u32, u32))
        requires
            old(grid).wf(),
            self.add@.len() <= u32::MAX,
            self.remove@.len() <= u32::MAX,
        ensures
            final(grid).wf(),
            final(grid).tiles() == old(grid).tiles(),
            final(grid).files() == old(grid).files(),
            final(grid).transitions() == old(grid).transitions().union(
                self.add@.to_set(),
            ).difference(self.remove@.to_set()),
            forall|t: Tile| self.remove@.contains(t) ==> !final(grid).transitions().contains(t),
            forall|t: Tile|
                self.add@.contains(t) && !self.remove@.contains(t)
                    ==> final(grid).transitions().contains(t),
            forall|t: Tile|
                !self.add@.contains(t) && !self.remove@.contains(t) ==> final(grid).transitions().contains(
                    t,
                ) == old(grid).transitions().contains(t),
            r.0 == self.add@.to_set().difference(old(grid).transitions()).len(),
            r.1 == self.remove@.to_set().intersect(
                old(grid).transitions().union(self.add@.to_set()),
            ).len(),
    {
        let ghost before = grid.transitions();
        let mut added: u32 = 0;
        let mut removed: u32 = 0;
        let mut i: usize = 0;
        proof {
            assert(self.add@.take(0).to_set().difference(before) =~= Set::<Tile>::empty());
            assert(before.union(self.add@.take(0).to_set()) =~= before);
        }
        while i < self.add.len()
            invariant
                i <= self.add@.len() <= u32::MAX,
                grid.wf(),
                grid.tiles() == old(grid).tiles(),
                grid.files() == old(grid).files(),
                grid.transitions() == before.union(self.add@.take(i as int).to_set()),
                self.add@.take(i as int).to_set().difference(before).finite(),
                added == self.add@.take(i as int).to_set().difference(before).len(),
                added <= i,
            decreases self.add@.len() - i,
        {
            let (x, y, z) = self.add[i];
            let ghost t = self.add@[i as int];
            let ghost less = self.add@.take(i as int).to_set();
            let known = grid.is_transition(x, y, z);
            if !known {
                added = added + 1;
            }
            grid.add_transition(x, y, z);
            proof {
                one_more(self.add@, i as int);
                assert(before.union(less.insert(t)) =~= before.union(less).insert(t));
                if known {
                    assert(less.insert(t).difference(before) =~= less.difference(before));
                } else {
                    assert(less.insert(t).difference(before) =~= less.difference(before).insert(t));
                }
            }
            i = i + 1;
        }
        assert(self.add@.take(i as int) =~= self.add@);
        let ghost marked = grid.transitions();
        let mut j: usize = 0;
        proof {
            assert(self.remove@.take(0).to_set().intersect(marked) =~= Set::<Tile>::empty());
            assert(marked.difference(self.remove@.take(0).to_set()) =~= marked);
        }
        while j < self.remove.len()
            invariant
                j <= self.remove@.len() <= u32::MAX,
                grid.wf(),
                grid.tiles() == old(grid).tiles(),
                grid.files() == old(grid).files(),
                grid.transitions() == marked.difference(self.remove@.take(j as int).to_set()),
                self.remove@.take(j as int).to_set().intersect(marked).finite(),
                removed == self.remove@.take(j as int).to_set().intersect(marked).len(),
                removed <= j,
            decreases self.remove@.len() - j,
        {
            let (x, y, z) = self.remove[j];
            let ghost t = self.remove@[j as int];
            let ghost less = self.remove@.take(j as int).to_set();
            let known = grid.remove_transition(x, y, z);
            if known {
                removed = removed + 1;
            }
            proof {
                one_more(self.remove@, j as int);
                assert(marked.difference(less.insert(t)) =~= marked.difference(less).remove(t));
                if known {
                    assert(less.insert(t).intersect(marked) =~= less.intersect(marked).insert(t));
                } else {
                    assert(less.insert(t).intersect(marked) =~= less.intersect(marked));
                }
            }
            j = j + 1;
        }
        assert(self.remove@.take(j as int) =~= self.remove@);
        (added, removed)
    }
}

} // verus!
