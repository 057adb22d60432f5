//! The engine: admission of proposals, voting, and resolution at the tick.

use vstd::prelude::*;
use crate::identity_primitives::Identifiable;
use crate::laws::{
    empty_state_is_consistent, submit_preserves_consistency, tick_preserves_consistency,
    vote_preserves_consistency,
};
use crate::ledger::VoteLedger;
use crate::model::{
    after_submit, after_tick, after_vote, close_all, consistent, resolution_events,
    submit_outcome, tick_events, vote_outcome, State,
};
use crate::rules::{check_admission, check_ballot};
use crate::schedule::ExpirySchedule;
use crate::store::ProposalStore;
use crate::types::{
    closing_tick, AccountId, Choice, Config, Error, Event, Proposal, ProposalId, Tick,
};

verus! {

/// The proposal store, the expiry schedule and the vote ledger under one
/// roof, with the deployment parameters they work by.
#[derive(Clone, Debug, PartialEq, Eq)]
pub struct Pallet {
    config: Config,
    store: ProposalStore,
    schedule: ExpirySchedule,
    ledger: VoteLedger,
}

impl View for Pallet {
    type V = State;

    closed spec fn view(&self) -> State {
        State {
            next_id: self.store.spec_next_id(),
            proposals: self.store@,
            schedule: self.schedule@,
            votes: self.ledger@,
        }
    }
}

impl Pallet {
    /// The deployment parameters.
    pub closed spec fn spec_config(&self) -> Config {
        self.config
    }

    /// The three components agree with each other and with the parameters.
    pub closed spec fn wf(&self) -> bool {
        &&& self.store.wf()
        &&& self.schedule.wf()
        &&& self.schedule.spec_capacity() == self.config.max_proposals_per_tick
        &&& consistent(self@, self.config)
    }

    /// A well-formed engine holds a consistent state.
    pub proof fn wf_is_consistent(&self)
        requires
            self.wf(),
        ensures
            consistent(self@, self.spec_config()),
    {
    }

    /// An engine without proposals whose allocator stands at `next_id`.
    pub fn starting_at(config: Config, next_id: ProposalId) -> (pallet: Pallet)
        ensures
            pallet.wf(),
            pallet.spec_config() == config,
            pallet@ == State::starting_at(next_id),
    {
        proof {
            empty_state_is_consistent(next_id, config);
        }
        Pallet {
            config,
            store: ProposalStore::starting_at(next_id),
            schedule: ExpirySchedule::new(config.max_proposals_per_tick),
            ledger: VoteLedger::new(),
        }
    }

    /// An engine without proposals whose allocator stands at zero.
    pub fn new(config: Config) -> (pallet: Pallet)
        ensures
            pallet.wf(),
            pallet.spec_config() == config,
            pallet@ == State::starting_at(0),
    {
        Pallet::starting_at(config, 0)
    }

    /// The deployment parameters.
    #[verifier::when_used_as_spec(spec_config)]
    pub fn config(&self) -> (config: Config)
        ensures
            config == self.spec_config(),
    {
        self.config
    }

    /// The identifier the next accepted proposal gets; with an allocator
    /// that started at zero, the number of proposals accepted so far.
    pub fn nb_proposals(&self) -> (next: ProposalId)
        ensures
            next == self@.next_id,
    {
        self.store.next_id()
    }

    /// Looks a proposal up.
    pub fn get(&self, id: ProposalId) -> (r: Option<&Proposal>)
        ensures
            match r {
                Some(p) => self@.proposals.contains_key(id) && self@.proposals[id] == p@,
                None => !self@.proposals.contains_key(id),
            },
    {
        self.store.get(id)
    }

    /// Whether `voter` has voted on `id`.
    pub fn has_voted(&self, id: ProposalId, voter: AccountId) -> (voted: bool)
        ensures
            voted == self@.votes.contains((id, voter)),
    {
        self.ledger.has_voted(id, voter)
    }

    /// Whether a ballot of this kind on `id` would keep the counter within
    /// the range of `u32`; true of an identifier under which nothing is
    /// stored.
    pub fn tally_has_room(&self, id: ProposalId, choice: Choice) -> (room: bool)
        ensures
            room == self@.tally_has_room(id, choice),
    {
        match self.store.get(id) {
            Some(p) => p.has_room(choice),
            None => true,
        }
    }

    /// The proposals that close at `tick` and are still to be resolved, in
    /// registration order.
    pub fn due_at(&self, tick: Tick) -> (ids: Vec<ProposalId>)
        ensures
            ids@ == self@.bucket(tick),
    {
        self.schedule.due(tick)
    }

    /// Admits a proposal of an authorized participant: checks the length of
    /// the text, allocates an identifier, stores the record with empty
    /// tallies and registers it for resolution at its closing tick. Either
    /// all of this happens or nothing does.
    pub fn submit(&mut self, proposer: AccountId, text: Vec<u8>, now: Tick) -> (r: Result<
        ProposalId,
        Error,
    >)
        requires
            old(self).wf(),
            closing_tick(old(self).spec_config(), now) <= Tick::MAX,
        ensures
            final(self).wf(),
            final(self).spec_config() == old(self).spec_config(),
            r == submit_outcome(old(self)@, old(self).spec_config(), true, text@, now),
            final(self)@ == after_submit(
                old(self)@,
                old(self).spec_config(),
                true,
                proposer,
                text@,
                now,
            ),
            r is Err ==> final(self)@ == old(self)@,
    {
        let end: Tick = now + self.config.duration as Tick + 1;
        let ruling = check_admission(
            &self.config,
            true,
            text.len(),
            self.store.next_id(),
            self.schedule.pending(end),
        );
        if let Err(e) = ruling {
            return Err(e);
        }
        proof {
            submit_preserves_consistency(old(self)@, self.config, true, proposer, text@, now);
        }
        let id = match self.store.add(Proposal::fresh(&self.config, proposer, text, now)) {
            Ok(id) => id,
            Err(e) => {
                return Err(e);
            },
        };
        match self.schedule.register(end, id) {
            Ok(()) => Ok(id),
            Err(e) => Err(e),
        }
    }

    /// Admits a proposal of `who` if the identity gate knows them, as
    /// `submit` does; turns it down with `Unauthorized`, changing nothing,
    /// if not.
    pub fn submit_proposal<Identity, Details>(
        &mut self,
        identity: &Identity,
        who: AccountId,
        text: Vec<u8>,
        now: Tick,
    ) -> (r: Result<ProposalId, Error>) where Identity: Identifiable<AccountId, Details>
        requires
            old(self).wf(),
            closing_tick(old(self).spec_config(), now) <= Tick::MAX,
        ensures
            final(self).wf(),
            final(self).spec_config() == old(self).spec_config(),
            r == submit_outcome(
                old(self)@,
                old(self).spec_config(),
                identity.identities().contains_key(who),
                text@,
                now,
            ),
            final(self)@ == after_submit(
                old(self)@,
                old(self).spec_config(),
                identity.identities().contains_key(who),
                who,
                text@,
                now,
            ),
            !identity.identities().contains_key(who) ==> r == Err::<ProposalId, Error>(
                Error::Unauthorized,
            ),
            r is Err ==> final(self)@ == old(self)@,
    {
        if !identity.is_identified(&who) {
            return Err(Error::Unauthorized);
        }
        self.submit(who, text, now)
    }

    /// Takes the ballot of an authorized participant: the proposal must be
    /// stored, the voter must not have voted on it before, and its window
    /// must be open. Then the voter is flagged and the ballot counted, both
    /// or neither.
    pub fn cast(&mut self, id: ProposalId, voter: AccountId, choice: Choice, now: Tick) -> (r:
        Result<(), Error>)
        requires
            old(self).wf(),
            old(self)@.tally_has_room(id, choice),
        ensures
            final(self).wf(),
            final(self).spec_config() == old(self).spec_config(),
            r == vote_outcome(old(self)@, true, voter, id, now),
            final(self)@ == after_vote(old(self)@, true, voter, id, choice, now),
            r is Err ==> final(self)@ == old(self)@,
    {
        let ruling = check_ballot(true, self.store.get(id), self.ledger.has_voted(id, voter), now);
        if let Err(e) = ruling {
            return Err(e);
        }
        proof {
            vote_preserves_consistency(old(self)@, self.config, true, voter, id, choice, now);
        }
        self.ledger.record(id, voter);
        self.store.record_vote(id, choice)
    }

    /// Takes the ballot of `who` if the identity gate knows them, as `cast`
    /// does; turns it down with `Unauthorized`, changing nothing, if not.
    pub fn vote_proposal<Identity, Details>(
        &mut self,
        identity: &Identity,
        who: AccountId,
        proposal_id: ProposalId,
        choice: Choice,
        now: Tick,
    ) -> (r: Result<(), Error>) where Identity: Identifiable<AccountId, Details>
        requires
            old(self).wf(),
            old(self)@.tally_has_room(proposal_id, choice),
        ensures
            final(self).wf(),
            final(self).spec_config() == old(self).spec_config(),
            r == vote_outcome(
                old(self)@,
                identity.identities().contains_key(who),
                who,
                proposal_id,
                now,
            ),
            final(self)@ == after_vote(
                old(self)@,
                identity.identities().contains_key(who),
                who,
                proposal_id,
                choice,
                now,
            ),
            !identity.identities().contains_key(who) ==> r == Err::<(), Error>(
                Error::Unauthorized,
            ),
            r is Err ==> final(self)@ == old(self)@,
    {
        if !identity.is_identified(&who) {
            return Err(Error::Unauthorized);
        }
        self.cast(proposal_id, who, choice, now)
    }

    /// Resolves the proposals that close at `now`, in the order in which
    /// they were registered: each is tallied, reported with `ProposalEnded`
    /// followed by its verdict, and closed. The bucket of `now` is drained,
    /// so a second call for the same tick finds nothing to do.
    pub fn on_tick(&mut self, now: Tick) -> (events: Vec<Event>)
        requires
            old(self).wf(),
        ensures
            final(self).wf(),
            final(self).spec_config() == old(self).spec_config(),
            events@ == tick_events(old(self)@, now),
            final(self)@ == after_tick(old(self)@, now),
    {
        let ghost before = self@;
        let ghost config = self.config;
        proof {
            tick_preserves_consistency(before, config, now);
        }
        let ids = self.schedule.take_and_clear(now);
        let mut events: Vec<Event> = Vec::new();
        let mut i: usize = 0;
        while i < ids.len()
            invariant
                0 <= i <= ids.len(),
                ids@ == before.bucket(now),
                consistent(before, config),
                self.config == config,
                self.store.wf(),
                self.store.spec_next_id() == before.next_id,
                self.store@ == close_all(before.proposals, ids@.take(i as int)),
                self.schedule.wf(),
                self.schedule.spec_capacity() == config.max_proposals_per_tick,
                self.schedule@ == before.schedule.remove(now),
                self.ledger@ == before.votes,
                events@ == resolution_events(before.proposals, ids@.take(i as int)),
            decreases ids.len() - i,
        {
            let id = ids[i];
            let ghost done = ids@.take(i as int);
            let ghost more = ids@.take(i + 1);
            proof {
                // What is scheduled is stored.
                assert(before.schedule[now][i as int] == id);
                assert(more.drop_last() =~= done);
                assert(more.last() == id);
            }
            let verdict = match self.store.get(id) {
                Some(p) => p.verdict(id),
                None => vstd::pervasive::unreached(),
            };
            events.push(Event::ProposalEnded(id));
            events.push(verdict);
            let _ = self.store.close(id);
            assert(self.store@ =~= close_all(before.proposals, more));
            i = i + 1;
        }
        proof {
            assert(ids@.take(ids.len() as int) =~= ids@);
        }
        events
    }
}

} // verus!
