//! What holds of the engine whatever the sequence of calls.

use vstd::prelude::*;
use crate::model::{
    after_submit, after_tick, after_vote, consistent, resolution_events, submit_outcome,
    tick_events, vote_outcome, State,
};
use crate::schedule::bucket_of;
use crate::types::{
    closing_tick, fresh_proposal, verdict, AccountId, Choice, Config, Error, Event, ProposalId,
    ProposalView, Tick,
};

verus! {

/// An engine without proposals is consistent, wherever its allocator stands.
pub proof fn empty_state_is_consistent(next_id: ProposalId, config: Config)
    ensures
        consistent(State::starting_at(next_id), config),
{
}

/// A submission, accepted or not, leaves a consistent engine consistent.
pub proof fn submit_preserves_consistency(
    s: State,
    config: Config,
    authorized: bool,
    proposer: AccountId,
    text: Seq<u8>,
    now: Tick,
)
    requires
        consistent(s, config),
        closing_tick(config, now) <= Tick::MAX,
    ensures
        consistent(after_submit(s, config, authorized, proposer, text, now), config),
{
    let next = after_submit(s, config, authorized, proposer, text, now);
    if submit_outcome(s, config, authorized, text, now) is Ok {
        let id = s.next_id;
        let end = closing_tick(config, now) as Tick;
        let before = s.bucket(end);
        // The new identifier is stored nowhere and scheduled nowhere yet.
        assert(!s.proposals.contains_key(id));
        assert forall|i: int| 0 <= i < before.len() implies #[trigger] before[i] != id by {
            assert(s.proposals.contains_key(s.schedule[end][i]));
        }
        assert(next.schedule[end] == before.push(id));
        // What is scheduled is stored, open and due at the tick of its bucket.
        assert forall|t: Tick, i: int|
            next.schedule.contains_key(t) && 0 <= i < next.schedule[t].len() implies {
            let scheduled = #[trigger] next.schedule[t][i];
            &&& next.proposals.contains_key(scheduled)
            &&& !next.proposals[scheduled].resolved
            &&& next.proposals[scheduled].end_tick == t
        } by {
            if t == end && i == before.len() {
            } else {
                assert(s.schedule.contains_key(t));
                assert(next.schedule[t][i] == s.schedule[t][i]);
                assert(s.proposals.contains_key(s.schedule[t][i]));
            }
        }
        // No bucket names a proposal twice.
        assert forall|t: Tick| #[trigger]
            next.schedule.contains_key(t) implies next.schedule[t].no_duplicates() by {
            if t == end {
                if s.schedule.contains_key(end) {
                    assert(s.schedule[end].no_duplicates());
                }
            } else {
                assert(s.schedule[t].no_duplicates());
            }
        }
        // What is open is scheduled: the new proposal at the end of its bucket.
        assert forall|other: ProposalId| #[trigger]
            next.proposals.contains_key(other)
                && !next.proposals[other].resolved implies next.bucket(
            next.proposals[other].end_tick,
        ).contains(other) by {
            if other == id {
                assert(next.bucket(end)[before.len() as int] == id);
            } else {
                let t = s.proposals[other].end_tick;
                assert(s.bucket(t).contains(other));
                let i = choose|i: int| 0 <= i < s.bucket(t).len() && s.bucket(t)[i] == other;
                assert(next.bucket(t)[i] == other);
            }
        }
        // Tallies match flags: nobody has voted on the new proposal.
        assert forall|other: ProposalId| #[trigger] next.proposals.contains_key(other) implies {
            &&& next.voters(other).finite()
            &&& next.voters(other).len() == next.proposals[other].yes_count
                + next.proposals[other].no_count
        } by {
            if other == id {
                assert(next.voters(id) =~= Set::<AccountId>::empty());
            } else {
                assert(next.voters(other) =~= s.voters(other));
            }
        }
    }
}

/// A vote, accepted or not, leaves a consistent engine consistent, as long
/// as the counter it would raise has not reached the end of its range.
pub proof fn vote_preserves_consistency(
    s: State,
    config: Config,
    authorized: bool,
    voter: AccountId,
    id: ProposalId,
    choice: Choice,
    now: Tick,
)
    requires
        consistent(s, config),
        s.tally_has_room(id, choice),
    ensures
        consistent(after_vote(s, authorized, voter, id, choice, now), config),
{
    let next = after_vote(s, authorized, voter, id, choice, now);
    if vote_outcome(s, authorized, voter, id, now) is Ok {
        assert(next.proposals.dom() =~= s.proposals.dom());
        assert forall|t: Tick, i: int|
            next.schedule.contains_key(t) && 0 <= i < next.schedule[t].len() implies {
            let scheduled = #[trigger] next.schedule[t][i];
            &&& next.proposals.contains_key(scheduled)
            &&& !next.proposals[scheduled].resolved
            &&& next.proposals[scheduled].end_tick == t
        } by {
            assert(s.proposals.contains_key(s.schedule[t][i]));
        }
        assert forall|other: ProposalId| #[trigger]
            next.proposals.contains_key(other)
                && !next.proposals[other].resolved implies next.bucket(
            next.proposals[other].end_tick,
        ).contains(other) by {
            assert(s.proposals.contains_key(other));
        }
        // Tallies match flags: one more voter, one more ballot counted.
        assert forall|other: ProposalId| #[trigger] next.proposals.contains_key(other) implies {
            &&& next.voters(other).finite()
            &&& next.voters(other).len() == next.proposals[other].yes_count
                + next.proposals[other].no_count
        } by {
            assert(s.proposals.contains_key(other));
            if other == id {
                assert(next.voters(id) =~= s.voters(id).insert(voter));
                assert(!s.voters(id).contains(voter));
            } else {
                assert(next.voters(other) =~= s.voters(other));
            }
        }
    }
}

/// The resolution driver leaves a consistent engine consistent, at any tick.
pub proof fn tick_preserves_consistency(s: State, config: Config, now: Tick)
    requires
        consistent(s, config),
    ensures
        consistent(after_tick(s, now), config),
{
    let next = after_tick(s, now);
    let due = s.bucket(now);
    assert(next.proposals.dom() =~= s.proposals.dom());
    // What is due now closes now, so nothing that stays scheduled is closed.
    assert forall|id: ProposalId| #[trigger] due.contains(id) implies s.proposals[id].end_tick
        == now by {
        let j = choose|j: int| 0 <= j < due.len() && due[j] == id;
        assert(s.schedule[now][j] == id);
    }
    assert forall|t: Tick, i: int|
        next.schedule.contains_key(t) && 0 <= i < next.schedule[t].len() implies {
        let scheduled = #[trigger] next.schedule[t][i];
        &&& next.proposals.contains_key(scheduled)
        &&& !next.proposals[scheduled].resolved
        &&& next.proposals[scheduled].end_tick == t
    } by {
        let scheduled = s.schedule[t][i];
        assert(s.proposals.contains_key(scheduled));
        assert(!due.contains(scheduled));
    }
    assert forall|id: ProposalId| #[trigger]
        next.proposals.contains_key(id) && !next.proposals[id].resolved implies next.bucket(
        next.proposals[id].end_tick,
    ).contains(id) by {
        assert(s.proposals.contains_key(id));
        assert(!due.contains(id));
        assert(s.bucket(s.proposals[id].end_tick).contains(id));
    }
    assert forall|id: ProposalId| #[trigger] next.proposals.contains_key(id) implies {
        &&& next.voters(id).finite()
        &&& next.voters(id).len() == next.proposals[id].yes_count + next.proposals[id].no_count
    } by {
        assert(s.proposals.contains_key(id));
        assert(next.voters(id) =~= s.voters(id));
    }
}

/// A call that fails changes nothing: neither the store, nor the schedule,
/// nor the ledger, nor the allocator.
pub proof fn failed_calls_change_nothing(
    s: State,
    config: Config,
    authorized: bool,
    who: AccountId,
    text: Seq<u8>,
    id: ProposalId,
    choice: Choice,
    now: Tick,
)
    ensures
        submit_outcome(s, config, authorized, text, now) is Err ==> after_submit(
            s,
            config,
            authorized,
            who,
            text,
            now,
        ) == s,
        vote_outcome(s, authorized, who, id, now) is Err ==> after_vote(
            s,
            authorized,
            who,
            id,
            choice,
            now,
        ) == s,
{
}

/// Whoever the identity gate does not know is turned down with
/// `Unauthorized`, whatever they submit or vote on, and the state stays as
/// it was.
pub proof fn unauthorized_calls_change_nothing(
    s: State,
    config: Config,
    who: AccountId,
    text: Seq<u8>,
    id: ProposalId,
    choice: Choice,
    now: Tick,
)
    ensures
        submit_outcome(s, config, false, text, now) == Err::<ProposalId, Error>(
            Error::Unauthorized,
        ),
        after_submit(s, config, false, who, text, now) == s,
        vote_outcome(s, false, who, id, now) == Err::<(), Error>(Error::Unauthorized),
        after_vote(s, false, who, id, choice, now) == s,
{
}

/// A text longer than the maximum is turned down with `TooLong`, and the
/// state stays as it was.
pub proof fn long_text_is_turned_down(
    s: State,
    config: Config,
    proposer: AccountId,
    text: Seq<u8>,
    now: Tick,
)
    requires
        text.len() > config.max_length,
    ensures
        submit_outcome(s, config, true, text, now) == Err::<ProposalId, Error>(Error::TooLong),
        after_submit(s, config, true, proposer, text, now) == s,
{
}

/// A text shorter than the minimum, and not longer than the maximum, is
/// turned down with `TooShort`, and the state stays as it was.
pub proof fn short_text_is_turned_down(
    s: State,
    config: Config,
    proposer: AccountId,
    text: Seq<u8>,
    now: Tick,
)
    requires
        text.len() < config.min_length,
        text.len() <= config.max_length,
    ensures
        submit_outcome(s, config, true, text, now) == Err::<ProposalId, Error>(Error::TooShort),
        after_submit(s, config, true, proposer, text, now) == s,
{
}

/// A text within the bounds is accepted as long as the allocator is not
/// exhausted and the bucket of the closing tick has room. The proposal gets
/// the identifier the allocator stood at, opens with empty tallies and is
/// due at its closing tick, behind what was registered there before.
pub proof fn text_within_bounds_is_accepted(
    s: State,
    config: Config,
    proposer: AccountId,
    text: Seq<u8>,
    now: Tick,
)
    requires
        config.min_length <= text.len() <= config.max_length,
        s.next_id < u32::MAX,
        s.bucket(closing_tick(config, now) as Tick).len() < config.max_proposals_per_tick,
    ensures
        submit_outcome(s, config, true, text, now) == Ok::<ProposalId, Error>(s.next_id),
        ({
            let next = after_submit(s, config, true, proposer, text, now);
            let end = closing_tick(config, now) as Tick;
            &&& next.next_id == s.next_id + 1
            &&& next.proposals == s.proposals.insert(
                s.next_id,
                fresh_proposal(config, proposer, text, now),
            )
            &&& next.bucket(end) == s.bucket(end).push(s.next_id)
            &&& forall|t: Tick| t != end ==> next.bucket(t) == s.bucket(t)
            &&& next.votes == s.votes
        }),
{
}

/// The first proposal an engine that starts at zero accepts gets the
/// identifier zero.
pub proof fn first_accepted_id_is_zero(
    config: Config,
    authorized: bool,
    text: Seq<u8>,
    now: Tick,
)
    requires
        submit_outcome(State::starting_at(0), config, authorized, text, now) is Ok,
    ensures
        submit_outcome(State::starting_at(0), config, authorized, text, now) == Ok::<
            ProposalId,
            Error,
        >(0),
{
}

/// An accepted proposal gets an identifier above every stored one: one more
/// than the highest, where anything is stored.
pub proof fn accepted_id_follows_the_highest(
    s: State,
    config: Config,
    authorized: bool,
    text: Seq<u8>,
    now: Tick,
    stored: ProposalId,
)
    requires
        consistent(s, config),
        submit_outcome(s, config, authorized, text, now) is Ok,
        s.proposals.contains_key(stored),
    ensures
        ({
            let id = submit_outcome(s, config, authorized, text, now)->Ok_0;
            &&& stored < id
            &&& s.proposals.contains_key((id - 1) as ProposalId)
        }),
{
}

/// Two proposals accepted one after the other get consecutive identifiers.
pub proof fn accepted_ids_are_consecutive(
    s: State,
    config: Config,
    first_proposer: AccountId,
    first_text: Seq<u8>,
    first_now: Tick,
    second_text: Seq<u8>,
    second_now: Tick,
)
    requires
        submit_outcome(s, config, true, first_text, first_now) is Ok,
        submit_outcome(
            after_submit(s, config, true, first_proposer, first_text, first_now),
            config,
            true,
            second_text,
            second_now,
        ) is Ok,
    ensures
        submit_outcome(
            after_submit(s, config, true, first_proposer, first_text, first_now),
            config,
            true,
            second_text,
            second_now,
        )->Ok_0 == submit_outcome(s, config, true, first_text, first_now)->Ok_0 + 1,
{
}

/// No bucket of a consistent engine holds more than
/// `max_proposals_per_tick` identifiers, and a submission that would close
/// at a tick whose bucket is full is turned down with `CapacityExceeded`
/// while everything accepted earlier stays as it was.
pub proof fn full_bucket_turns_submission_down(
    s: State,
    config: Config,
    proposer: AccountId,
    text: Seq<u8>,
    now: Tick,
)
    requires
        consistent(s, config),
        config.min_length <= text.len() <= config.max_length,
        s.next_id < u32::MAX,
        s.bucket(closing_tick(config, now) as Tick).len() >= config.max_proposals_per_tick,
    ensures
        forall|t: Tick| s.bucket(t).len() <= config.max_proposals_per_tick,
        submit_outcome(s, config, true, text, now) == Err::<ProposalId, Error>(
            Error::CapacityExceeded,
        ),
        after_submit(s, config, true, proposer, text, now) == s,
{
    assert forall|t: Tick| s.bucket(t).len() <= config.max_proposals_per_tick by {
        if s.schedule.contains_key(t) {
        }
    }
}

/// With the allocator at the largest representable value a submission is
/// turned down with `Overflow`: the counter does not wrap around, and the
/// state stays as it was.
pub proof fn exhausted_allocator_turns_submission_down(
    s: State,
    config: Config,
    proposer: AccountId,
    text: Seq<u8>,
    now: Tick,
)
    requires
        config.min_length <= text.len() <= config.max_length,
        s.next_id == u32::MAX,
    ensures
        submit_outcome(s, config, true, text, now) == Err::<ProposalId, Error>(Error::Overflow),
        after_submit(s, config, true, proposer, text, now) == s,
{
}

/// Once a ballot was accepted, the same participant's next ballot on the
/// same proposal is turned down with `AlreadyVoted`, whatever it says and
/// whenever it comes, and the tally holds the one ballot: the chosen counter
/// is one higher than before the first call and the other as it was.
pub proof fn second_vote_is_turned_down(
    s: State,
    voter: AccountId,
    id: ProposalId,
    first_choice: Choice,
    first_now: Tick,
    second_choice: Choice,
    second_now: Tick,
)
    requires
        vote_outcome(s, true, voter, id, first_now) is Ok,
        s.tally_has_room(id, first_choice),
    ensures
        ({
            let voted = after_vote(s, true, voter, id, first_choice, first_now);
            &&& vote_outcome(voted, true, voter, id, second_now) == Err::<(), Error>(
                Error::AlreadyVoted,
            )
            &&& after_vote(voted, true, voter, id, second_choice, second_now) == voted
            &&& voted.proposals[id] == s.proposals[id].with_vote(first_choice)
            &&& voted.proposals[id].yes_count + voted.proposals[id].no_count
                == s.proposals[id].yes_count + s.proposals[id].no_count + 1
        }),
{
}

/// An accepted ballot flags its voter, raises the chosen counter of its
/// proposal by one and touches nothing else.
pub proof fn accepted_vote_is_flagged_and_counted(
    s: State,
    voter: AccountId,
    id: ProposalId,
    choice: Choice,
    now: Tick,
)
    requires
        vote_outcome(s, true, voter, id, now) is Ok,
        s.tally_has_room(id, choice),
    ensures
        ({
            let voted = after_vote(s, true, voter, id, choice, now);
            let before = s.proposals[id];
            let after = voted.proposals[id];
            &&& !s.votes.contains((id, voter))
            &&& voted.votes == s.votes.insert((id, voter))
            &&& choice == Choice::Yes ==> after.yes_count == before.yes_count + 1
                && after.no_count == before.no_count
            &&& choice == Choice::No ==> after.no_count == before.no_count + 1 && after.yes_count
                == before.yes_count
            &&& forall|other: ProposalId|
                other != id ==> (voted.proposals.contains_key(other)
                    <==> s.proposals.contains_key(other)) && voted.proposals[other]
                    == s.proposals[other]
            &&& voted.schedule == s.schedule
            &&& voted.next_id == s.next_id
        }),
{
}

/// A ballot on an identifier under which nothing is stored is turned down
/// with `NotFound`, and no tally changes.
pub proof fn vote_on_unknown_proposal_changes_nothing(
    s: State,
    voter: AccountId,
    id: ProposalId,
    choice: Choice,
    now: Tick,
)
    requires
        !s.proposals.contains_key(id),
    ensures
        vote_outcome(s, true, voter, id, now) == Err::<(), Error>(Error::NotFound),
        after_vote(s, true, voter, id, choice, now) == s,
{
}

/// A ballot that comes at or after the closing tick, or after the proposal
/// was resolved, from a participant who has not voted on it, is turned down
/// with `Expired`.
pub proof fn late_vote_is_turned_down(
    s: State,
    voter: AccountId,
    id: ProposalId,
    choice: Choice,
    now: Tick,
)
    requires
        s.proposals.contains_key(id),
        !s.votes.contains((id, voter)),
        s.proposals[id].resolved || now >= s.proposals[id].end_tick,
    ensures
        vote_outcome(s, true, voter, id, now) == Err::<(), Error>(Error::Expired),
        after_vote(s, true, voter, id, choice, now) == s,
{
}

/// A proposal with as many `No` as `Yes` loses; only strictly more `Yes`
/// wins.
pub proof fn a_tie_loses(id: ProposalId, p: ProposalView)
    ensures
        p.yes_count == p.no_count ==> verdict(id, p) == Event::Lose(id),
        verdict(id, p) == Event::Win(id) <==> p.yes_count > p.no_count,
        verdict(id, p) == Event::Lose(id) <==> p.yes_count <= p.no_count,
{
}

/// Resolving `ids` emits two events for each of them, in their order:
/// `ProposalEnded` and then the verdict.
pub proof fn resolution_events_by_position(
    proposals: Map<ProposalId, ProposalView>,
    ids: Seq<ProposalId>,
)
    ensures
        resolution_events(proposals, ids).len() == 2 * ids.len(),
        forall|k: int|
            0 <= k < ids.len() ==> {
                &&& #[trigger] resolution_events(proposals, ids)[2 * k] == Event::ProposalEnded(
                    ids[k],
                )
                &&& resolution_events(proposals, ids)[2 * k + 1] == verdict(
                    ids[k],
                    proposals[ids[k]],
                )
            },
    decreases ids.len(),
{
    if ids.len() > 0 {
        resolution_events_by_position(proposals, ids.drop_last());
        let shorter = resolution_events(proposals, ids.drop_last());
        let all = resolution_events(proposals, ids);
        assert forall|k: int| 0 <= k < ids.len() implies {
            &&& #[trigger] all[2 * k] == Event::ProposalEnded(ids[k])
            &&& all[2 * k + 1] == verdict(ids[k], proposals[ids[k]])
        } by {
            if k < ids.len() - 1 {
                assert(shorter[2 * k] == Event::ProposalEnded(ids.drop_last()[k]));
            }
        }
    }
}

/// Taking a bucket out empties it: once the bucket of a tick was taken, it
/// holds nothing, and taking it again changes nothing.
pub proof fn taken_bucket_is_empty(schedule: Map<Tick, Seq<ProposalId>>, tick: Tick)
    ensures
        bucket_of(schedule.remove(tick), tick) == Seq::<ProposalId>::empty(),
        schedule.remove(tick).remove(tick) == schedule.remove(tick),
        forall|other: Tick|
            other != tick ==> bucket_of(schedule.remove(tick), other) == bucket_of(schedule, other),
{
    assert(schedule.remove(tick).remove(tick) =~= schedule.remove(tick));
}

/// The drain is idempotent: right after the driver ran for a tick, a second
/// run for the same tick emits nothing and changes nothing.
pub proof fn second_tick_finds_nothing(s: State, now: Tick)
    ensures
        after_tick(s, now).bucket(now) == Seq::<ProposalId>::empty(),
        tick_events(after_tick(s, now), now) == Seq::<Event>::empty(),
        after_tick(after_tick(s, now), now) == after_tick(s, now),
{
    let once = after_tick(s, now);
    let twice = after_tick(once, now);
    assert(twice.schedule =~= once.schedule);
    assert(twice.proposals =~= once.proposals);
}

/// The driver closes exactly the proposals due at its tick: each of them
/// was open and is closed afterwards with its tallies as they were, and
/// every other record stays as it was.
pub proof fn tick_closes_what_is_due(s: State, config: Config, now: Tick, id: ProposalId)
    requires
        consistent(s, config),
        s.proposals.contains_key(id),
    ensures
        after_tick(s, now).proposals.contains_key(id),
        s.bucket(now).contains(id) ==> !s.proposals[id].resolved && s.proposals[id].end_tick
            == now && after_tick(s, now).proposals[id] == s.proposals[id].closed(),
        !s.bucket(now).contains(id) ==> after_tick(s, now).proposals[id] == s.proposals[id],
        forall|t: Tick| !after_tick(s, now).bucket(t).contains(id) || (t != now && s.bucket(
            t,
        ).contains(id)),
{
    if s.bucket(now).contains(id) {
        let j = choose|j: int| 0 <= j < s.bucket(now).len() && s.bucket(now)[j] == id;
        assert(s.schedule[now][j] == id);
    }
}

/// Each proposal is resolved once: an open proposal stands in the bucket of
/// its closing tick, at one position, and in no other bucket; a closed one
/// stands in none.
pub proof fn a_proposal_is_due_once(s: State, config: Config, id: ProposalId)
    requires
        consistent(s, config),
        s.proposals.contains_key(id),
    ensures
        !s.proposals[id].resolved ==> s.bucket(s.proposals[id].end_tick).contains(id),
        forall|t: Tick| #[trigger]
            s.bucket(t).contains(id) ==> !s.proposals[id].resolved && t
                == s.proposals[id].end_tick,
        forall|t: Tick, i: int, j: int|
            0 <= i < s.bucket(t).len() && 0 <= j < s.bucket(t).len() && s.bucket(t)[i] == id
                && s.bucket(t)[j] == id ==> i == j,
{
    assert forall|t: Tick| #[trigger] s.bucket(t).contains(id) implies !s.proposals[id].resolved
        && t == s.proposals[id].end_tick by {
        let j = choose|j: int| 0 <= j < s.bucket(t).len() && s.bucket(t)[j] == id;
        assert(s.schedule[t][j] == id);
    }
    assert forall|t: Tick, i: int, j: int|
        0 <= i < s.bucket(t).len() && 0 <= j < s.bucket(t).len() && s.bucket(t)[i] == id
            && s.bucket(t)[j] == id implies i == j by {
        assert(s.schedule[t].no_duplicates());
    }
}

/// The driver, run at the closing tick of an open proposal, resolves it:
/// it reports its end, at the returned position, and right after that the
/// verdict on its tallies as they stand, and closes it.
pub proof fn open_proposal_is_resolved_at_its_closing_tick(
    s: State,
    config: Config,
    id: ProposalId,
) -> (at: int)
    requires
        consistent(s, config),
        s.proposals.contains_key(id),
        !s.proposals[id].resolved,
    ensures
        0 <= at < tick_events(s, s.proposals[id].end_tick).len() - 1,
        tick_events(s, s.proposals[id].end_tick)[at] == Event::ProposalEnded(id),
        tick_events(s, s.proposals[id].end_tick)[at + 1] == verdict(id, s.proposals[id]),
        after_tick(s, s.proposals[id].end_tick).proposals[id] == s.proposals[id].closed(),
{
    let end = s.proposals[id].end_tick;
    let due = s.bucket(end);
    let k = choose|k: int| 0 <= k < due.len() && due[k] == id;
    resolution_events_by_position(s.proposals, due);
    assert(tick_events(s, end)[2 * k] == Event::ProposalEnded(due[k]));
    2 * k
}

/// A closed proposal is final: no submission, ballot or tick changes its
/// record.
pub proof fn closed_proposal_is_final(
    s: State,
    config: Config,
    id: ProposalId,
    authorized: bool,
    who: AccountId,
    text: Seq<u8>,
    on: ProposalId,
    choice: Choice,
    now: Tick,
)
    requires
        consistent(s, config),
        s.proposals.contains_key(id),
        s.proposals[id].resolved,
    ensures
        after_submit(s, config, authorized, who, text, now).proposals.contains_key(id),
        after_submit(s, config, authorized, who, text, now).proposals[id] == s.proposals[id],
        after_vote(s, authorized, who, on, choice, now).proposals.contains_key(id),
        after_vote(s, authorized, who, on, choice, now).proposals[id] == s.proposals[id],
        after_tick(s, now).proposals.contains_key(id),
        after_tick(s, now).proposals[id] == s.proposals[id],
{
    a_proposal_is_due_once(s, config, id);
}

/// In a consistent engine every flag was counted and every counted ballot
/// is flagged: the two counters of a proposal add up to the number of its
/// voters.
pub proof fn tallies_match_flags(s: State, config: Config, id: ProposalId)
    requires
        consistent(s, config),
        s.proposals.contains_key(id),
    ensures
        s.voters(id).finite(),
        s.voters(id).len() == s.proposals[id].yes_count + s.proposals[id].no_count,
{
}

/// A stored record changes only in its tallies and in being closed: no
/// call removes it or touches its proposer, its text or its window.
pub proof fn stored_record_keeps_its_terms(
    s: State,
    config: Config,
    id: ProposalId,
    authorized: bool,
    who: AccountId,
    text: Seq<u8>,
    on: ProposalId,
    choice: Choice,
    now: Tick,
)
    requires
        consistent(s, config),
        s.proposals.contains_key(id),
    ensures
        same_terms(s, after_submit(s, config, authorized, who, text, now), id),
        same_terms(s, after_vote(s, authorized, who, on, choice, now), id),
        same_terms(s, after_tick(s, now), id),
{
}

/// Whether `id` is stored in both states under the same proposer, text and
/// window, and is closed in the second if it was in the first.
pub open spec fn same_terms(before: State, after: State, id: ProposalId) -> bool {
    &&& before.proposals.contains_key(id)
    &&& after.proposals.contains_key(id)
    &&& after.proposals[id].proposer == before.proposals[id].proposer
    &&& after.proposals[id].text == before.proposals[id].text
    &&& after.proposals[id].start_tick == before.proposals[id].start_tick
    &&& after.proposals[id].end_tick == before.proposals[id].end_tick
    &&& before.proposals[id].resolved ==> after.proposals[id].resolved
}

/// A flag, once set, stays set, and the allocator never goes back.
pub proof fn flags_and_allocator_only_grow(
    s: State,
    config: Config,
    authorized: bool,
    who: AccountId,
    text: Seq<u8>,
    on: ProposalId,
    choice: Choice,
    now: Tick,
)
    ensures
        s.votes.subset_of(after_submit(s, config, authorized, who, text, now).votes),
        s.votes.subset_of(after_vote(s, authorized, who, on, choice, now).votes),
        s.votes.subset_of(after_tick(s, now).votes),
        s.next_id <= after_submit(s, config, authorized, who, text, now).next_id,
        s.next_id == after_vote(s, authorized, who, on, choice, now).next_id,
        s.next_id == after_tick(s, now).next_id,
{
}

/// Registration and resolution are the only operations on a bucket: a
/// ballot leaves the schedule alone, a submission at most appends its
/// identifier to the bucket of its closing tick, and the driver drops the
/// bucket of its own tick and no other.
pub proof fn buckets_change_only_by_registration_and_resolution(
    s: State,
    config: Config,
    authorized: bool,
    who: AccountId,
    text: Seq<u8>,
    on: ProposalId,
    choice: Choice,
    now: Tick,
    t: Tick,
)
    ensures
        after_vote(s, authorized, who, on, choice, now).schedule == s.schedule,
        ({
            let next = after_submit(s, config, authorized, who, text, now);
            if submit_outcome(s, config, authorized, text, now) is Ok && t == closing_tick(
                config,
                now,
            ) as Tick {
                next.bucket(t) == s.bucket(t).push(s.next_id)
            } else {
                next.bucket(t) == s.bucket(t)
            }
        }),
        after_tick(s, now).bucket(t) == if t == now {
            Seq::<ProposalId>::empty()
        } else {
            s.bucket(t)
        },
{
}

} // verus!
