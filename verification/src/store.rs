//! The proposal store: the proposal table and the identifier allocator.

use std::collections::HashMap;
use vstd::prelude::*;
use crate::types::{Choice, Error, Proposal, ProposalId, ProposalView};

verus! {

/// Owns the proposal records and the counter that names them.
#[derive(Clone, Debug, PartialEq, Eq)]
pub struct ProposalStore {
    next_id: ProposalId,
    records: HashMap<ProposalId, Proposal>,
}

impl View for ProposalStore {
    type V = Map<ProposalId, ProposalView>;

    /// The proposal table.
    closed spec fn view(&self) -> Map<ProposalId, ProposalView> {
        self.records@.map_values(|p: Proposal| p@)
    }
}

impl ProposalStore {
    /// The identifier the next allocation returns.
    pub closed spec fn spec_next_id(&self) -> ProposalId {
        self.next_id
    }

    /// The allocator is ahead of every stored identifier.
    pub open spec fn wf(&self) -> bool {
        forall|id: ProposalId| #[trigger] self@.contains_key(id) ==> id < self.spec_next_id()
    }

    /// An empty store whose allocator stands at `next_id`.
    pub fn starting_at(next_id: ProposalId) -> (store: ProposalStore)
        ensures
            store.wf(),
            store@ == Map::<ProposalId, ProposalView>::empty(),
            store.spec_next_id() == next_id,
    {
        ProposalStore { next_id, records: HashMap::new() }
    }

    /// An empty store whose allocator stands at zero.
    pub fn new() -> (store: ProposalStore)
        ensures
            store.wf(),
            store@ == Map::<ProposalId, ProposalView>::empty(),
            store.spec_next_id() == 0,
    {
        ProposalStore::starting_at(0)
    }

    /// The identifier the next allocation returns.
    #[verifier::when_used_as_spec(spec_next_id)]
    pub fn next_id(&self) -> (next: ProposalId)
        ensures
            next == self.spec_next_id(),
    {
        self.next_id
    }

    /// Hands out the current counter value and advances the counter by one.
    /// At the largest representable value the counter stays where it is and
    /// the call fails with `Overflow`.
    pub fn allocate_id(&mut self) -> (r: Result<ProposalId, Error>)
        ensures
            final(self)@ == old(self)@,
            old(self).spec_next_id() < u32::MAX ==> r == Ok::<ProposalId, Error>(
                old(self).spec_next_id(),
            ) && final(self).spec_next_id() == old(self).spec_next_id() + 1,
            old(self).spec_next_id() == u32::MAX ==> r == Err::<ProposalId, Error>(Error::Overflow)
                && final(self).spec_next_id() == old(self).spec_next_id(),
            old(self).wf() ==> final(self).wf(),
    {
        let current = self.next_id;
        match current.checked_add(1) {
            Some(next) => {
                self.next_id = next;
                Ok(current)
            },
            None => Err(Error::Overflow),
        }
    }

    /// Stores `proposal` under a freshly allocated identifier and returns the
    /// identifier. Fails with `Overflow`, storing nothing, when the allocator
    /// is exhausted.
    pub fn add(&mut self, proposal: Proposal) -> (r: Result<ProposalId, Error>)
        requires
            old(self).wf(),
        ensures
            final(self).wf(),
            old(self).spec_next_id() < u32::MAX ==> {
                &&& r == Ok::<ProposalId, Error>(old(self).spec_next_id())
                &&& final(self).spec_next_id() == old(self).spec_next_id() + 1
                &&& final(self)@ == old(self)@.insert(old(self).spec_next_id(), proposal@)
            },
            old(self).spec_next_id() == u32::MAX ==> {
                &&& r == Err::<ProposalId, Error>(Error::Overflow)
                &&& final(self).spec_next_id() == old(self).spec_next_id()
                &&& final(self)@ == old(self)@
            },
    {
        match self.allocate_id() {
            Ok(id) => {
                self.records.insert(id, proposal);
                assert(self@ =~= old(self)@.insert(id, proposal@));
                Ok(id)
            },
            Err(e) => Err(e),
        }
    }

    /// Looks a proposal up.
    pub fn get(&self, id: ProposalId) -> (r: Option<&Proposal>)
        ensures
            match r {
                Some(p) => self@.contains_key(id) && self@[id] == p@,
                None => !self@.contains_key(id),
            },
    {
        self.records.get(&id)
    }

    /// Counts one ballot on the stored record, in place.
    pub fn record_vote(&mut self, id: ProposalId, choice: Choice) -> (r: Result<(), Error>)
        requires
            old(self)@.contains_key(id) ==> old(self)@[id].has_room(choice),
        ensures
            final(self).spec_next_id() == old(self).spec_next_id(),
            old(self)@.contains_key(id) ==> r == Ok::<(), Error>(()) && final(self)@ == old(
                self,
            )@.insert(id, old(self)@[id].with_vote(choice)),
            !old(self)@.contains_key(id) ==> r == Err::<(), Error>(Error::NotFound) && final(self)@
                == old(self)@,
            old(self).wf() ==> final(self).wf(),
    {
        match self.records.remove(&id) {
            Some(mut p) => {
                p.count(choice);
                self.records.insert(id, p);
                Ok(())
            },
            None => Err(Error::NotFound),
        }
    }

    /// Closes the stored record for good.
    pub fn close(&mut self, id: ProposalId) -> (r: Result<(), Error>)
        ensures
            final(self).spec_next_id() == old(self).spec_next_id(),
            old(self)@.contains_key(id) ==> r == Ok::<(), Error>(()) && final(self)@ == old(
                self,
            )@.insert(id, old(self)@[id].closed()),
            !old(self)@.contains_key(id) ==> r == Err::<(), Error>(Error::NotFound) && final(self)@
                == old(self)@,
            old(self).wf() ==> final(self).wf(),
    {
        match self.records.remove(&id) {
            Some(mut p) => {
                p.close();
                self.records.insert(id, p);
                Ok(())
            },
            None => Err(Error::NotFound),
        }
    }
}

} // verus!
