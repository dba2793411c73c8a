//! The table of positions, by participant.

use crate::identity::Identity;
use crate::position::{PositionView, StakingPosition};
use vstd::prelude::*;

verus! {

/// One row of the table.
#[derive(Debug)]
struct Entry {
    owner: Identity,
    position: StakingPosition,
}

/// Whether some row of `entries` belongs to `id`.
spec fn has_row(entries: Seq<Entry>, id: Identity) -> bool {
    exists|i: int| 0 <= i < entries.len() && entries[i].owner == id
}

/// A row of `entries` that belongs to `id`, if there is one.
spec fn row_of(entries: Seq<Entry>, id: Identity) -> int {
    choose|i: int| 0 <= i < entries.len() && entries[i].owner == id
}

/// No two rows of `entries` have the same owner.
spec fn one_row_each(entries: Seq<Entry>) -> bool {
    forall|i: int, j: int|
        0 <= i < entries.len() && 0 <= j < entries.len() && i != j ==> entries[i].owner
            != entries[j].owner
}

/// The map that `entries` stands for.
spec fn table(entries: Seq<Entry>) -> Map<Identity, PositionView> {
    Map::new(|id: Identity| has_row(entries, id), |id: Identity| entries[row_of(entries, id)].position@)
}

/// A durable mapping from participant to position. It checks nothing about
/// the positions it is given.
#[derive(Debug)]
pub struct PositionStore {
    entries: Vec<Entry>,
}

impl View for PositionStore {
    type V = Map<Identity, PositionView>;

    closed spec fn view(&self) -> Map<Identity, PositionView> {
        table(self.entries@)
    }
}

impl PositionStore {
    /// Each participant has at most one row.
    pub closed spec fn wf(&self) -> bool {
        one_row_each(self.entries@)
    }

    /// The row of `id`, if it has one.
    fn find(&self, id: &Identity) -> (found: Option<usize>)
        ensures
            match found {
                Some(i) => i < self.entries@.len() && self.entries@[i as int].owner == *id,
                None => !has_row(self.entries@, *id),
            },
    {
        let mut i: usize = 0;
        while i < self.entries.len()
            invariant
                i <= self.entries@.len(),
                forall|k: int| 0 <= k < i ==> self.entries@[k].owner != *id,
            decreases self.entries@.len() - i,
        {
            if self.entries[i].owner.same_as(id) {
                return Some(i);
            }
            i = i + 1;
        }
        None
    }

    /// The empty table.
    pub fn new() -> (store: PositionStore)
        ensures
            store.wf(),
            store@ == Map::<Identity, PositionView>::empty(),
    {
        PositionStore { entries: Vec::new() }
    }

    /// Whether nothing is stored for `id`.
    pub fn is_empty(&self, id: &Identity) -> (absent: bool)
        requires
            self.wf(),
        ensures
            absent == !self@.contains_key(*id),
    {
        self.find(id).is_none()
    }

    /// A copy of the position stored for `id`, if there is one.
    pub fn get(&self, id: &Identity) -> (stored: Option<StakingPosition>)
        requires
            self.wf(),
        ensures
            match stored {
                Some(position) => self@.contains_key(*id) && position@ == self@[*id],
                None => !self@.contains_key(*id),
            },
    {
        match self.find(id) {
            Some(i) => Some(self.entries[i].position.clone()),
            None => None,
        }
    }

    /// Stores `position` for `id`, in place of what was stored for it before.
    pub fn set(&mut self, id: Identity, position: StakingPosition)
        requires
            old(self).wf(),
        ensures
            final(self).wf(),
            final(self)@ == old(self)@.insert(id, position@),
    {
        let ghost before = self.entries@;
        match self.find(&id) {
            Some(i) => {
                self.entries[i] = Entry { owner: id, position };
            },
            None => {
                self.entries.push(Entry { owner: id, position });
            },
        }
        proof {
            let after = self.entries@;
            let at = if has_row(before, id) {
                row_of(before, id)
            } else {
                before.len() as int
            };
            assert(after[at].owner == id);
            assert forall|other: Identity| has_row(before, other) implies has_row(after, other) by {
                assert(after[row_of(before, other)].owner == other);
            }
        }
    }

    /// Deletes what is stored for `id`, if anything.
    pub fn clear(&mut self, id: &Identity)
        requires
            old(self).wf(),
        ensures
            final(self).wf(),
            final(self)@ == old(self)@.remove(*id),
    {
        let ghost before = self.entries@;
        match self.find(id) {
            None => {},
            Some(i) => {
                let _ = self.entries.swap_remove(i);
                proof {
                    let after = self.entries@;
                    assert forall|other: Identity|
                        has_row(before, other) && other != *id implies has_row(after, other) by {
                        let k = row_of(before, other);
                        if k == before.len() - 1 {
                            assert(after[i as int].owner == other);
                        } else {
                            assert(after[k].owner == other);
                        }
                    }
                }
            },
        }
    }
}

} // verus!
