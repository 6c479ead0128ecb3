//! Allocation of unique instance identifiers.
//!
//! The allocator is an explicitly owned component: a counter that hands out
//! its current value and then increases, so that every id it ever returns is
//! distinct from every other. Sharing one allocator across threads is the
//! caller's affair (the original intent of a process-wide counter); whatever
//! the sharing discipline, ids drawn from one allocator never repeat.

use vstd::prelude::*;

use crate::event::Id;

verus! {

/// Hands out process-unique instance identifiers, never reusing one.
pub struct IdAllocator {
    /// The id the next call will return; strictly above every id issued so far.
    pub counter: Id,
    /// Every id issued so far, in the order it was handed out.
    pub issued: Ghost<Seq<Id>>,
}

impl IdAllocator {
    /// Every issued id lies below the counter, and the issued ids are
    /// strictly increasing in the order they were handed out.
    pub open spec fn wf(self) -> bool {
        &&& forall|k: int| 0 <= k < self.issued@.len() ==> self.issued@[k] < self.counter
        &&& forall|i: int, j: int|
            0 <= i < j < self.issued@.len() ==> self.issued@[i] < self.issued@[j]
    }

    /// A fresh allocator that will hand out ids starting from zero.
    pub fn new() -> (r: IdAllocator)
        ensures
            r.wf(),
            r.counter == 0,
            r.issued@ == Seq::<Id>::empty(),
    {
        IdAllocator { counter: 0, issued: Ghost(Seq::empty()) }
    }

    /// Returns the pre-increment counter value and bumps the counter, so the
    /// returned id differs from every id this allocator issued before.
    pub fn next_id(&mut self) -> (id: Id)
        requires
            old(self).wf(),
            old(self).counter < usize::MAX,
        ensures
            final(self).wf(),
            id == old(self).counter,
            final(self).counter == old(self).counter + 1,
            final(self).issued@ == old(self).issued@.push(id),
    {
        let id = self.counter;
        self.counter = self.counter + 1;
        proof {
            self.issued@ = self.issued@.push(id);
        }
        id
    }
}

/// Ids are pairwise distinct across all instances, live or historical, that
/// drew their ids from one allocator: two draws at different positions in the
/// allocator's history never returned the same id.
pub proof fn lemma_ids_distinct(a: IdAllocator, i: int, j: int)
    requires
        a.wf(),
        0 <= i < a.issued@.len(),
        0 <= j < a.issued@.len(),
        i != j,
    ensures
        a.issued@[i] != a.issued@[j],
{
}

} // verus!
