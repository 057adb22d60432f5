//! Whole runs of the engine: what a sequence of calls leaves behind and what
//! it emits on the way.

use vstd::prelude::*;
use crate::laws::{
    resolution_events_by_position, submit_preserves_consistency, tick_preserves_consistency,
    vote_preserves_consistency,
};
use crate::model::{
    after_submit, after_tick, after_vote, consistent, resolution_events, tick_events, State,
};
use crate::types::{
    closing_tick, verdict, AccountId, Choice, Config, Event, ProposalId, ProposalView, Tick,
};

verus! {

/// One call on the engine, with what the identity gate said of the caller.
pub enum Call {
    Submit { authorized: bool, proposer: AccountId, text: Seq<u8>, now: Tick },
    Vote { authorized: bool, voter: AccountId, id: ProposalId, choice: Choice, now: Tick },
    Tick { now: Tick },
}

/// The state the call leaves behind.
pub open spec fn after(s: State, config: Config, call: Call) -> State {
    match call {
        Call::Submit { authorized, proposer, text, now } => after_submit(
            s,
            config,
            authorized,
            proposer,
            text,
            now,
        ),
        Call::Vote { authorized, voter, id, choice, now } => after_vote(
            s,
            authorized,
            voter,
            id,
            choice,
            now,
        ),
        Call::Tick { now } => after_tick(s, now),
    }
}

/// What the call emits: only the resolution driver emits anything.
pub open spec fn events_of(s: State, call: Call) -> Seq<Event> {
    match call {
        Call::Tick { now } => tick_events(s, now),
        _ => Seq::empty(),
    }
}

/// Whether the call stays within what the machine can represent: the
/// closing tick of a submission fits a `Tick`, and the counter a ballot
/// would raise is not at the end of its range.
pub open spec fn within_limits(s: State, config: Config, call: Call) -> bool {
    match call {
        Call::Submit { now, .. } => closing_tick(config, now) <= Tick::MAX,
        Call::Vote { id, choice, .. } => s.tally_has_room(id, choice),
        Call::Tick { .. } => true,
    }
}

/// The state after all of `calls`, made in this order from `s`.
pub open spec fn run(s: State, config: Config, calls: Seq<Call>) -> State
    decreases calls.len(),
{
    if calls.len() == 0 {
        s
    } else {
        after(run(s, config, calls.drop_last()), config, calls.last())
    }
}

/// Everything `calls` emit, made in this order from `s`.
pub open spec fn emitted(s: State, config: Config, calls: Seq<Call>) -> Seq<Event>
    decreases calls.len(),
{
    if calls.len() == 0 {
        Seq::empty()
    } else {
        emitted(s, config, calls.drop_last()) + events_of(
            run(s, config, calls.drop_last()),
            calls.last(),
        )
    }
}

/// Whether each of `calls`, made in this order from `s`, stays within the
/// machine's limits at the state it meets.
pub open spec fn admissible(s: State, config: Config, calls: Seq<Call>) -> bool
    decreases calls.len(),
{
    calls.len() == 0 || (admissible(s, config, calls.drop_last()) && within_limits(
        run(s, config, calls.drop_last()),
        config,
        calls.last(),
    ))
}

/// The proposal `event` is about.
pub open spec fn subject(event: Event) -> ProposalId {
    match event {
        Event::ProposalEnded(id) => id,
        Event::Win(id) => id,
        Event::Lose(id) => id,
    }
}

/// Whether `event` reports the end of `id`.
pub open spec fn reports_end_of(event: Event, id: ProposalId) -> bool {
    event == Event::ProposalEnded(id)
}

/// Whether `event` is a verdict on `id`.
pub open spec fn is_verdict_on(event: Event, id: ProposalId) -> bool {
    event == Event::Win(id) || event == Event::Lose(id)
}

/// Whatever the sequence of submissions, ballots and ticks, a consistent
/// engine stays consistent.
pub proof fn every_run_stays_consistent(s: State, config: Config, calls: Seq<Call>)
    requires
        consistent(s, config),
        admissible(s, config, calls),
    ensures
        consistent(run(s, config, calls), config),
    decreases calls.len(),
{
    if calls.len() > 0 {
        every_run_stays_consistent(s, config, calls.drop_last());
        step_stays_consistent(run(s, config, calls.drop_last()), config, calls.last());
    }
}

/// One call within the machine's limits leaves a consistent engine
/// consistent.
pub proof fn step_stays_consistent(s: State, config: Config, call: Call)
    requires
        consistent(s, config),
        within_limits(s, config, call),
    ensures
        consistent(after(s, config, call), config),
{
    match call {
        Call::Submit { authorized, proposer, text, now } => {
            submit_preserves_consistency(s, config, authorized, proposer, text, now);
        },
        Call::Vote { authorized, voter, id, choice, now } => {
            vote_preserves_consistency(s, config, authorized, voter, id, choice, now);
        },
        Call::Tick { now } => {
            tick_preserves_consistency(s, config, now);
        },
    }
}

/// In what one drain emits, the end of `id` is reported at an even
/// position, the double of the position of `id` in the bucket.
proof fn end_reports_stand_at_even_positions(
    proposals: Map<ProposalId, ProposalView>,
    ids: Seq<ProposalId>,
    at: int,
    id: ProposalId,
)
    requires
        0 <= at < resolution_events(proposals, ids).len(),
        reports_end_of(resolution_events(proposals, ids)[at], id),
    ensures
        at % 2 == 0,
        0 <= at / 2 < ids.len(),
        ids[at / 2] == id,
{
    let events = resolution_events(proposals, ids);
    let k = at / 2;
    resolution_events_by_position(proposals, ids);
    assert(events[2 * k] == Event::ProposalEnded(ids[k]));
    assert(events[2 * k + 1] == verdict(ids[k], proposals[ids[k]]));
}

/// What a run has reported as ended is stored and closed.
pub proof fn what_was_reported_is_closed(
    s: State,
    config: Config,
    calls: Seq<Call>,
    at: int,
    id: ProposalId,
)
    requires
        consistent(s, config),
        admissible(s, config, calls),
        0 <= at < emitted(s, config, calls).len(),
        reports_end_of(emitted(s, config, calls)[at], id),
    ensures
        run(s, config, calls).proposals.contains_key(id),
        run(s, config, calls).proposals[id].resolved,
    decreases calls.len(),
{
    let earlier = calls.drop_last();
    let before = run(s, config, earlier);
    let reported = emitted(s, config, earlier);
    every_run_stays_consistent(s, config, earlier);
    if at < reported.len() {
        what_was_reported_is_closed(s, config, earlier, at, id);
        step_stays_consistent(before, config, calls.last());
    } else {
        let now = calls.last()->Tick_now;
        let k = (at - reported.len()) / 2;
        end_reports_stand_at_even_positions(
            before.proposals,
            before.bucket(now),
            at - reported.len(),
            id,
        );
        assert(before.schedule[now][k] == id);
    }
}

/// Each proposal is resolved at most once: no run reports the end of the
/// same proposal twice.
pub proof fn every_proposal_ends_at_most_once(
    s: State,
    config: Config,
    calls: Seq<Call>,
    first: int,
    second: int,
    id: ProposalId,
)
    requires
        consistent(s, config),
        admissible(s, config, calls),
        0 <= first < emitted(s, config, calls).len(),
        0 <= second < emitted(s, config, calls).len(),
        reports_end_of(emitted(s, config, calls)[first], id),
        reports_end_of(emitted(s, config, calls)[second], id),
    ensures
        first == second,
    decreases calls.len(),
{
    let earlier = calls.drop_last();
    let before = run(s, config, earlier);
    let reported = emitted(s, config, earlier);
    every_run_stays_consistent(s, config, earlier);
    if first < reported.len() && second < reported.len() {
        every_proposal_ends_at_most_once(s, config, earlier, first, second, id);
    } else {
        let now = calls.last()->Tick_now;
        let due = before.bucket(now);
        if first < reported.len() {
            // Reported earlier, so closed by now, and yet due: impossible.
            what_was_reported_is_closed(s, config, earlier, first, id);
            let k = (second - reported.len()) / 2;
            end_reports_stand_at_even_positions(before.proposals, due, second - reported.len(), id);
            assert(before.schedule[now][k] == id);
        } else if second < reported.len() {
            what_was_reported_is_closed(s, config, earlier, second, id);
            let k = (first - reported.len()) / 2;
            end_reports_stand_at_even_positions(before.proposals, due, first - reported.len(), id);
            assert(before.schedule[now][k] == id);
        } else {
            // Both in the same drain: a bucket names nothing twice.
            end_reports_stand_at_even_positions(before.proposals, due, first - reported.len(), id);
            end_reports_stand_at_even_positions(before.proposals, due, second - reported.len(), id);
            assert(before.schedule[now].no_duplicates());
        }
    }
}

/// Events come in pairs: the report that a proposal has ended is directly
/// followed by the verdict on that proposal, and nothing else is emitted.
pub proof fn every_end_is_followed_by_its_verdict(
    s: State,
    config: Config,
    calls: Seq<Call>,
    pair: int,
)
    requires
        0 <= 2 * pair < emitted(s, config, calls).len(),
    ensures
        emitted(s, config, calls).len() % 2 == 0,
        reports_end_of(
            emitted(s, config, calls)[2 * pair],
            subject(emitted(s, config, calls)[2 * pair]),
        ),
        is_verdict_on(
            emitted(s, config, calls)[2 * pair + 1],
            subject(emitted(s, config, calls)[2 * pair]),
        ),
    decreases calls.len(),
{
    let earlier = calls.drop_last();
    let reported = emitted(s, config, earlier);
    emitted_in_pairs(s, config, earlier);
    if 2 * pair < reported.len() {
        every_end_is_followed_by_its_verdict(s, config, earlier, pair);
    } else {
        let before = run(s, config, earlier);
        let now = calls.last()->Tick_now;
        let due = before.bucket(now);
        let k = pair - reported.len() / 2;
        let drained = tick_events(before, now);
        resolution_events_by_position(before.proposals, due);
        assert(drained[2 * k] == Event::ProposalEnded(due[k]));
        assert(drained[2 * k + 1] == verdict(due[k], before.proposals[due[k]]));
        assert(emitted(s, config, calls)[2 * pair] == drained[2 * k]);
        assert(emitted(s, config, calls)[2 * pair + 1] == drained[2 * k + 1]);
    }
    emitted_in_pairs(s, config, calls);
}

/// A run emits an even number of events.
pub proof fn emitted_in_pairs(s: State, config: Config, calls: Seq<Call>)
    ensures
        emitted(s, config, calls).len() % 2 == 0,
    decreases calls.len(),
{
    if calls.len() > 0 {
        emitted_in_pairs(s, config, calls.drop_last());
        let before = run(s, config, calls.drop_last());
        match calls.last() {
            Call::Tick { now } => {
                resolution_events_by_position(before.proposals, before.bucket(now));
            },
            _ => {},
        }
    }
}

} // verus!
