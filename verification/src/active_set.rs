//! The set of participants that hold an open position.

use crate::identity::Identity;
use vstd::prelude::*;

verus! {

/// A set of identities. Membership is all that counts; the order in which
/// members are kept is of no consequence and changes on removal.
#[derive(Debug)]
pub struct ActiveSet {
    members: Vec<Identity>,
}

impl View for ActiveSet {
    type V = Set<Identity>;

    closed spec fn view(&self) -> Set<Identity> {
        Set::new(|id: Identity| self.members@.contains(id))
    }
}

impl ActiveSet {
    /// No member is kept twice.
    pub closed spec fn wf(&self) -> bool {
        self.members@.no_duplicates()
    }

    /// Where `id` is kept, if it is a member.
    fn position_of(&self, id: &Identity) -> (found: Option<usize>)
        ensures
            match found {
                Some(i) => i < self.members@.len() && self.members@[i as int] == *id,
                None => !self.members@.contains(*id),
            },
    {
        let mut i: usize = 0;
        while i < self.members.len()
            invariant
                i <= self.members@.len(),
                forall|k: int| 0 <= k < i ==> self.members@[k] != *id,
            decreases self.members@.len() - i,
        {
            if self.members[i].same_as(id) {
                return Some(i);
            }
            i = i + 1;
        }
        None
    }

    /// The empty set.
    pub fn new() -> (set: ActiveSet)
        ensures
            set.wf(),
            set@ == Set::<Identity>::empty(),
    {
        let set = ActiveSet { members: Vec::new() };
        set
    }

    /// Whether `id` is a member.
    pub fn contains(&self, id: &Identity) -> (member: bool)
        ensures
            member == self@.contains(*id),
    {
        self.position_of(id).is_some()
    }

    /// Number of members.
    pub fn len(&self) -> (count: usize)
        requires
            self.wf(),
        ensures
            count == self@.len(),
            self@.finite(),
    {
        proof {
            self.members@.unique_seq_to_set();
        }
        self.members.len()
    }

    /// Makes `id` a member. Returns whether it was not one before.
    pub fn insert(&mut self, id: Identity) -> (newly_inserted: bool)
        requires
            old(self).wf(),
        ensures
            final(self).wf(),
            final(self)@ == old(self)@.insert(id),
            newly_inserted == !old(self)@.contains(id),
    {
        match self.position_of(&id) {
            Some(_) => false,
            None => {
                let ghost before = self.members@;
                self.members.push(id);
                proof {
                    assert forall|other: Identity| before.contains(other) implies self.members@.contains(
                        other,
                    ) by {
                        let k = choose|k: int| 0 <= k < before.len() && before[k] == other;
                        assert(self.members@[k] == other);
                    }
                    assert(self.members@[before.len() as int] == id);
                }
                true
            },
        }
    }

    /// Takes `id` out of the set, moving the last member into its place.
    /// Returns whether it was a member.
    pub fn swap_remove(&mut self, id: &Identity) -> (removed: bool)
        requires
            old(self).wf(),
        ensures
            final(self).wf(),
            final(self)@ == old(self)@.remove(*id),
            removed == old(self)@.contains(*id),
    {
        match self.position_of(id) {
            None => false,
            Some(i) => {
                let ghost before = self.members@;
                let _ = self.members.swap_remove(i);
                proof {
                    let after = self.members@;
                    assert forall|other: Identity|
                        before.contains(other) && other != *id implies after.contains(other) by {
                        let k = choose|k: int| 0 <= k < before.len() && before[k] == other;
                        if k == before.len() - 1 {
                            assert(after[i as int] == other);
                        } else {
                            assert(after[k] == other);
                        }
                    }
                }
                true
            },
        }
    }

    /// The members, each once, in no particular order.
    pub fn members(&self) -> (list: Vec<Identity>)
        requires
            self.wf(),
        ensures
            list@.no_duplicates(),
            forall|id: Identity| list@.contains(id) <==> self@.contains(id),
    {
        self.members.clone()
    }
}

} // verus!
