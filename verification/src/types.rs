//! Plain data shared by every component of the voting engine.

use vstd::prelude::*;

verus! {

/// Identifier of a participant.
pub type AccountId = u64;

/// A discrete, strictly increasing logical time step.
pub type Tick = u64;

/// Identifier of a proposal, handed out by the allocator.
pub type ProposalId = u32;

/// The two ballots a participant can cast.
#[derive(Clone, Copy, Debug, PartialEq, Eq, Structural)]
pub enum Choice {
    Yes,
    No,
}

/// Deployment parameters of the engine. They are handed over once, when the
/// engine is built, and never change afterwards.
#[derive(Clone, Copy, Debug, PartialEq, Eq, Structural)]
pub struct Config {
    /// The minimum length of a proposal text, in bytes.
    pub min_length: u32,
    /// The maximum length of a proposal text, in bytes.
    pub max_length: u32,
    /// Number of ticks a proposal stays open.
    pub duration: u32,
    /// How many proposals may close in the same tick.
    pub max_proposals_per_tick: u32,
}

/// Why a call was turned down. A call that fails leaves the state untouched.
#[derive(Clone, Copy, Debug, PartialEq, Eq, Structural)]
pub enum Error {
    /// The identity gate does not know the caller.
    Unauthorized,
    /// The proposal text is shorter than `Config::min_length`.
    TooShort,
    /// The proposal text is longer than `Config::max_length`.
    TooLong,
    /// No proposal is stored under the given identifier.
    NotFound,
    /// The participant has already voted on this proposal.
    AlreadyVoted,
    /// The proposal's window has closed.
    Expired,
    /// The bucket of the closing tick is full.
    CapacityExceeded,
    /// The identifier allocator is exhausted.
    Overflow,
}

/// What the resolution driver emits.
#[derive(Clone, Copy, Debug, PartialEq, Eq, Structural)]
pub enum Event {
    /// The proposal's window has closed and its votes were tallied.
    ProposalEnded(ProposalId),
    /// The proposal gathered strictly more `Yes` than `No`.
    Win(ProposalId),
    /// The proposal did not gather more `Yes` than `No`.
    Lose(ProposalId),
}

/// A stored proposal.
#[derive(Clone, Debug, PartialEq, Eq)]
pub struct Proposal {
    pub proposer: AccountId,
    pub text: Vec<u8>,
    pub yes_count: u32,
    pub no_count: u32,
    pub start_tick: Tick,
    pub end_tick: Tick,
    /// Set once, by the resolution driver; a resolved proposal takes no
    /// further votes.
    pub resolved: bool,
}

/// The mathematical value of a `Proposal`.
pub struct ProposalView {
    pub proposer: AccountId,
    pub text: Seq<u8>,
    pub yes_count: u32,
    pub no_count: u32,
    pub start_tick: Tick,
    pub end_tick: Tick,
    pub resolved: bool,
}

impl View for Proposal {
    type V = ProposalView;

    open spec fn view(&self) -> ProposalView {
        ProposalView {
            proposer: self.proposer,
            text: self.text@,
            yes_count: self.yes_count,
            no_count: self.no_count,
            start_tick: self.start_tick,
            end_tick: self.end_tick,
            resolved: self.resolved,
        }
    }
}

/// The tick at which a proposal submitted at `now` closes.
pub open spec fn closing_tick(config: Config, now: Tick) -> int {
    now + config.duration + 1
}

/// The record of a proposal accepted at `now`.
pub open spec fn fresh_proposal(
    config: Config,
    proposer: AccountId,
    text: Seq<u8>,
    now: Tick,
) -> ProposalView {
    ProposalView {
        proposer,
        text,
        yes_count: 0,
        no_count: 0,
        start_tick: now,
        end_tick: closing_tick(config, now) as Tick,
        resolved: false,
    }
}

/// The verdict on one proposal.
pub open spec fn verdict(id: ProposalId, p: ProposalView) -> Event {
    if p.wins() {
        Event::Win(id)
    } else {
        Event::Lose(id)
    }
}

impl ProposalView {
    /// The tally after one more ballot.
    pub open spec fn with_vote(self, choice: Choice) -> ProposalView {
        match choice {
            Choice::Yes => ProposalView { yes_count: (self.yes_count + 1) as u32, ..self },
            Choice::No => ProposalView { no_count: (self.no_count + 1) as u32, ..self },
        }
    }

    /// Whether the tally still has room for one more ballot of this kind.
    pub open spec fn has_room(self, choice: Choice) -> bool {
        match choice {
            Choice::Yes => self.yes_count < u32::MAX,
            Choice::No => self.no_count < u32::MAX,
        }
    }

    /// The same record, closed for good.
    pub open spec fn closed(self) -> ProposalView {
        ProposalView { resolved: true, ..self }
    }

    /// A proposal wins with strictly more `Yes` than `No`; a tie loses.
    pub open spec fn wins(self) -> bool {
        self.yes_count > self.no_count
    }
}

impl Config {
    /// The tick at which a proposal submitted at `now` closes, or nothing
    /// where that tick lies beyond the range of `Tick`.
    pub fn closing_tick(&self, now: Tick) -> (end: Option<Tick>)
        ensures
            closing_tick(*self, now) <= Tick::MAX ==> end == Some(closing_tick(*self, now) as Tick),
            closing_tick(*self, now) > Tick::MAX ==> end.is_none(),
    {
        match now.checked_add(self.duration as Tick) {
            Some(last_open) => last_open.checked_add(1),
            None => None,
        }
    }
}

impl Proposal {
    /// The record of a proposal accepted at `now`: empty tallies, open, and
    /// closing `duration + 1` ticks later.
    pub fn fresh(config: &Config, proposer: AccountId, text: Vec<u8>, now: Tick) -> (p: Proposal)
        requires
            closing_tick(*config, now) <= Tick::MAX,
        ensures
            p@ == fresh_proposal(*config, proposer, text@, now),
    {
        Proposal {
            proposer,
            text,
            yes_count: 0,
            no_count: 0,
            start_tick: now,
            end_tick: now + config.duration as Tick + 1,
            resolved: false,
        }
    }

    /// Whether the tally still has room for one more ballot of this kind.
    pub fn has_room(&self, choice: Choice) -> (room: bool)
        ensures
            room == self@.has_room(choice),
    {
        match choice {
            Choice::Yes => self.yes_count < u32::MAX,
            Choice::No => self.no_count < u32::MAX,
        }
    }

    /// Counts one ballot.
    pub fn count(&mut self, choice: Choice)
        requires
            old(self)@.has_room(choice),
        ensures
            final(self)@ == old(self)@.with_vote(choice),
    {
        match choice {
            Choice::Yes => {
                self.yes_count = self.yes_count + 1;
            },
            Choice::No => {
                self.no_count = self.no_count + 1;
            },
        }
    }

    /// Closes the record for good.
    pub fn close(&mut self)
        ensures
            final(self)@ == old(self)@.closed(),
    {
        self.resolved = true;
    }

    /// The verdict on this proposal, filed under `id`: `Win` with strictly
    /// more `Yes` than `No`, `Lose` otherwise.
    pub fn verdict(&self, id: ProposalId) -> (event: Event)
        ensures
            event == verdict(id, self@),
    {
        if self.yes_count > self.no_count {
            Event::Win(id)
        } else {
            Event::Lose(id)
        }
    }
}

} // verus!
