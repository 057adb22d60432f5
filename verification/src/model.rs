//! The engine as a state machine over mathematical values.
//!
//! `State` is what the engine holds, `after_*` is the state a call leaves
//! behind and `*_outcome` is what the call returns. The executable functions
//! state their contracts over these functions.

use vstd::prelude::*;
use crate::rules::{admission, ballot};
use crate::schedule::bucket_of;
use crate::types::{
    closing_tick, fresh_proposal, verdict, AccountId, Choice, Config, Error, Event, ProposalId,
    ProposalView, Tick,
};

verus! {

/// Everything the engine holds.
pub struct State {
    /// The identifier the next accepted proposal gets.
    pub next_id: ProposalId,
    /// The proposal table.
    pub proposals: Map<ProposalId, ProposalView>,
    /// The expiry schedule: for each tick with proposals still to resolve,
    /// their identifiers in the order in which they were registered.
    pub schedule: Map<Tick, Seq<ProposalId>>,
    /// Who has voted on what.
    pub votes: Set<(ProposalId, AccountId)>,
}

impl State {
    /// An engine without proposals whose allocator stands at `next_id`.
    pub open spec fn starting_at(next_id: ProposalId) -> State {
        State { next_id, proposals: Map::empty(), schedule: Map::empty(), votes: Set::empty() }
    }

    /// The identifiers due at `tick`, in registration order.
    pub open spec fn bucket(self, tick: Tick) -> Seq<ProposalId> {
        bucket_of(self.schedule, tick)
    }

    /// The participants who have voted on `id`.
    pub open spec fn voters(self, id: ProposalId) -> Set<AccountId> {
        Set::new(|voter: AccountId| self.votes.contains((id, voter)))
    }

    /// Whether `id` is stored and could still take a ballot of this kind
    /// without its counter leaving the range of `u32`. Vacuously true of an
    /// identifier that is not stored.
    pub open spec fn tally_has_room(self, id: ProposalId, choice: Choice) -> bool {
        self.proposals.contains_key(id) ==> self.proposals[id].has_room(choice)
    }
}

/// What a submission returns: the ruling on its admission, taken on the
/// allocator's counter and on what is already due at the closing tick.
pub open spec fn submit_outcome(
    s: State,
    config: Config,
    authorized: bool,
    text: Seq<u8>,
    now: Tick,
) -> Result<ProposalId, Error> {
    admission(
        config,
        authorized,
        text.len(),
        s.next_id,
        s.bucket(closing_tick(config, now) as Tick).len(),
    )
}

/// The state a submission leaves behind: on success one new record under the
/// allocated identifier, the allocator advanced by one and the identifier
/// appended to the bucket of the closing tick; on failure the state as it was.
pub open spec fn after_submit(
    s: State,
    config: Config,
    authorized: bool,
    proposer: AccountId,
    text: Seq<u8>,
    now: Tick,
) -> State {
    if submit_outcome(s, config, authorized, text, now) is Ok {
        let end = closing_tick(config, now) as Tick;
        State {
            next_id: (s.next_id + 1) as ProposalId,
            proposals: s.proposals.insert(s.next_id, fresh_proposal(config, proposer, text, now)),
            schedule: s.schedule.insert(end, s.bucket(end).push(s.next_id)),
            votes: s.votes,
        }
    } else {
        s
    }
}

/// What a vote returns: the ruling on the ballot, taken on the stored
/// record, if there is one, and on the voter's flag.
pub open spec fn vote_outcome(
    s: State,
    authorized: bool,
    voter: AccountId,
    id: ProposalId,
    now: Tick,
) -> Result<(), Error> {
    ballot(
        authorized,
        if s.proposals.contains_key(id) {
            Some(s.proposals[id])
        } else {
            None
        },
        s.votes.contains((id, voter)),
        now,
    )
}

/// The state a vote leaves behind: on success the voter is flagged and the
/// chosen counter of the proposal is one higher; on failure the state as it
/// was.
pub open spec fn after_vote(
    s: State,
    authorized: bool,
    voter: AccountId,
    id: ProposalId,
    choice: Choice,
    now: Tick,
) -> State {
    if vote_outcome(s, authorized, voter, id, now) is Ok {
        State {
            proposals: s.proposals.insert(id, s.proposals[id].with_vote(choice)),
            votes: s.votes.insert((id, voter)),
            ..s
        }
    } else {
        s
    }
}

/// What resolving `ids`, in this order, emits: for each proposal
/// `ProposalEnded` and then its verdict.
pub open spec fn resolution_events(
    proposals: Map<ProposalId, ProposalView>,
    ids: Seq<ProposalId>,
) -> Seq<Event>
    decreases ids.len(),
{
    if ids.len() == 0 {
        Seq::empty()
    } else {
        resolution_events(proposals, ids.drop_last()).push(Event::ProposalEnded(ids.last())).push(
            verdict(ids.last(), proposals[ids.last()]),
        )
    }
}

/// The proposal table with every record named in `ids` closed.
pub open spec fn close_all(
    proposals: Map<ProposalId, ProposalView>,
    ids: Seq<ProposalId>,
) -> Map<ProposalId, ProposalView> {
    Map::new(
        |id: ProposalId| proposals.contains_key(id),
        |id: ProposalId|
            if ids.contains(id) {
                proposals[id].closed()
            } else {
                proposals[id]
            },
    )
}

/// What the resolution driver emits at `now`.
pub open spec fn tick_events(s: State, now: Tick) -> Seq<Event> {
    resolution_events(s.proposals, s.bucket(now))
}

/// The state the resolution driver leaves behind at `now`: the bucket of
/// `now` is gone and the proposals it named are closed.
pub open spec fn after_tick(s: State, now: Tick) -> State {
    State {
        proposals: close_all(s.proposals, s.bucket(now)),
        schedule: s.schedule.remove(now),
        ..s
    }
}

/// What holds of every state the engine can reach.
pub open spec fn consistent(s: State, config: Config) -> bool {
    // The identifier space is collision-free: the allocator is ahead of
    // every stored identifier.
    &&& forall|id: ProposalId| #[trigger] s.proposals.contains_key(id) ==> id < s.next_id
    // The identifier handed out last is the highest one stored.
    &&& forall|id: ProposalId| #[trigger]
        s.proposals.contains_key(id) ==> s.proposals.contains_key((s.next_id - 1) as ProposalId)
    // A window is fixed at creation.
    &&& forall|id: ProposalId| #[trigger]
        s.proposals.contains_key(id) ==> s.proposals[id].end_tick == closing_tick(
            config,
            s.proposals[id].start_tick,
        )
    // The work of a tick is bounded, and the schedule keeps no empty bucket.
    &&& forall|t: Tick| #[trigger]
        s.schedule.contains_key(t) ==> 0 < s.schedule[t].len() <= config.max_proposals_per_tick
    // A scheduled identifier names a stored, open proposal that closes at
    // the tick of its bucket, and stands there once.
    &&& forall|t: Tick, i: int|
        s.schedule.contains_key(t) && 0 <= i < s.schedule[t].len() ==> {
            let id = #[trigger] s.schedule[t][i];
            &&& s.proposals.contains_key(id)
            &&& !s.proposals[id].resolved
            &&& s.proposals[id].end_tick == t
        }
    &&& forall|t: Tick| #[trigger] s.schedule.contains_key(t) ==> s.schedule[t].no_duplicates()
    // An open proposal is scheduled.
    &&& forall|id: ProposalId| #[trigger]
        s.proposals.contains_key(id) && !s.proposals[id].resolved ==> s.bucket(
            s.proposals[id].end_tick,
        ).contains(id)
    // A flag belongs to a stored proposal, and every flag was tallied once.
    &&& forall|id: ProposalId, voter: AccountId| #[trigger]
        s.votes.contains((id, voter)) ==> s.proposals.contains_key(id)
    &&& forall|id: ProposalId| #[trigger]
        s.proposals.contains_key(id) ==> {
            &&& s.voters(id).finite()
            &&& s.voters(id).len() == s.proposals[id].yes_count + s.proposals[id].no_count
        }
}

} // verus!
