use std::collections::HashSet;
use vstd::prelude::*;

verus! {

broadcast use vstd::std_specs::hash::group_hash_axioms;

/// Identifiers of the requests already accepted for processing. The set only
/// grows.
pub struct SeenIds {
    ids: HashSet<u128>,
}

impl View for SeenIds {
    type V = Set<u128>;

    closed spec fn view(&self) -> Set<u128> {
        self.ids@
    }
}

impl SeenIds {
    pub fn new() -> (r: SeenIds)
        ensures
            r@ == Set::<u128>::empty(),
    {
        SeenIds { ids: HashSet::new() }
    }

    pub fn contains(&self, id: u128) -> (r: bool)
        ensures
            r == self@.contains(id),
    {
        self.ids.contains(&id)
    }

    /// Records `id` and reports whether it was absent before, in one step:
    /// no other update can come between the check and the insertion.
    pub fn insert_if_absent(&mut self, id: u128) -> (r: bool)
        ensures
            r == !old(self)@.contains(id),
            final(self)@ == old(self)@.insert(id),
    {
        self.ids.insert(id)
    }
}

} // verus!
