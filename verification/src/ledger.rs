//! The vote ledger: who has voted on which proposal.

use std::collections::HashMap;
use std::collections::HashSet;
use vstd::prelude::*;
use crate::types::{AccountId, ProposalId};

verus! {

/// Owns the "has voted" flags. A flag, once set, stays set.
#[derive(Clone, Debug, PartialEq, Eq)]
pub struct VoteLedger {
    voters: HashMap<ProposalId, HashSet<AccountId>>,
}

impl View for VoteLedger {
    type V = Set<(ProposalId, AccountId)>;

    /// The pairs of proposal and participant whose flag is set.
    closed spec fn view(&self) -> Set<(ProposalId, AccountId)> {
        Set::new(
            |pair: (ProposalId, AccountId)|
                self.voters@.contains_key(pair.0) && self.voters@[pair.0]@.contains(pair.1),
        )
    }
}

impl VoteLedger {
    /// A ledger without flags.
    pub fn new() -> (ledger: VoteLedger)
        ensures
            ledger@ == Set::<(ProposalId, AccountId)>::empty(),
    {
        VoteLedger { voters: HashMap::new() }
    }

    /// Whether `voter` has voted on `id`.
    pub fn has_voted(&self, id: ProposalId, voter: AccountId) -> (voted: bool)
        ensures
            voted == self@.contains((id, voter)),
    {
        match self.voters.get(&id) {
            Some(of_proposal) => of_proposal.contains(&voter),
            None => false,
        }
    }

    /// Sets the flag of `voter` on `id`.
    pub fn record(&mut self, id: ProposalId, voter: AccountId)
        ensures
            final(self)@ == old(self)@.insert((id, voter)),
    {
        let mut of_proposal = match self.voters.remove(&id) {
            Some(of_proposal) => of_proposal,
            None => HashSet::new(),
        };
        of_proposal.insert(voter);
        self.voters.insert(id, of_proposal);
    }
}

} // verus!
