//! The rulings on a submission and on a ballot, taken on plain values.
//!
//! A host that keeps the tables elsewhere reads what a ruling needs, asks
//! for the ruling here and writes down what follows from it.

use vstd::prelude::*;
use crate::types::{Config, Error, Proposal, ProposalId, ProposalView, Tick};

verus! {

/// The ruling on a submission. The checks come in this order: the identity
/// gate, the upper and the lower bound on the text, the allocator, the room
/// left in the bucket of the closing tick. An accepted proposal gets the
/// identifier the allocator stands at.
pub open spec fn admission(
    config: Config,
    authorized: bool,
    text_len: nat,
    next_id: ProposalId,
    due_at_closing: nat,
) -> Result<ProposalId, Error> {
    if !authorized {
        Err(Error::Unauthorized)
    } else if text_len > config.max_length {
        Err(Error::TooLong)
    } else if text_len < config.min_length {
        Err(Error::TooShort)
    } else if next_id == u32::MAX {
        Err(Error::Overflow)
    } else if due_at_closing >= config.max_proposals_per_tick {
        Err(Error::CapacityExceeded)
    } else {
        Ok(next_id)
    }
}

/// The ruling on a ballot. The checks come in this order: the identity gate,
/// the proposal's existence, the voter's earlier ballot, the window. A
/// proposal that has been resolved counts as expired at any tick.
pub open spec fn ballot(
    authorized: bool,
    proposal: Option<ProposalView>,
    already_voted: bool,
    now: Tick,
) -> Result<(), Error> {
    if !authorized {
        Err(Error::Unauthorized)
    } else if proposal.is_none() {
        Err(Error::NotFound)
    } else if already_voted {
        Err(Error::AlreadyVoted)
    } else if proposal.unwrap().resolved || now >= proposal.unwrap().end_tick {
        Err(Error::Expired)
    } else {
        Ok(())
    }
}

/// The view of a record that may be missing.
pub open spec fn view_of(proposal: Option<&Proposal>) -> Option<ProposalView> {
    match proposal {
        Some(p) => Some(p@),
        None => None,
    }
}

/// Rules on a submission: `text_len` is the length of the text, `next_id`
/// where the allocator stands and `due_at_closing` how many proposals are
/// already due at the tick at which this one would close.
pub fn check_admission(
    config: &Config,
    authorized: bool,
    text_len: usize,
    next_id: ProposalId,
    due_at_closing: usize,
) -> (r: Result<ProposalId, Error>)
    ensures
        r == admission(*config, authorized, text_len as nat, next_id, due_at_closing as nat),
{
    if !authorized {
        Err(Error::Unauthorized)
    } else if text_len > config.max_length as usize {
        Err(Error::TooLong)
    } else if text_len < config.min_length as usize {
        Err(Error::TooShort)
    } else if next_id == u32::MAX {
        Err(Error::Overflow)
    } else if due_at_closing >= config.max_proposals_per_tick as usize {
        Err(Error::CapacityExceeded)
    } else {
        Ok(next_id)
    }
}

/// Rules on a ballot: `proposal` is the stored record, if there is one, and
/// `already_voted` the voter's flag on it.
pub fn check_ballot(
    authorized: bool,
    proposal: Option<&Proposal>,
    already_voted: bool,
    now: Tick,
) -> (r: Result<(), Error>)
    ensures
        r == ballot(authorized, view_of(proposal), already_voted, now),
{
    if !authorized {
        return Err(Error::Unauthorized);
    }
    match proposal {
        None => Err(Error::NotFound),
        Some(p) => {
            if already_voted {
                Err(Error::AlreadyVoted)
            } else if p.resolved || now >= p.end_tick {
                Err(Error::Expired)
            } else {
                Ok(())
            }
        },
    }
}

} // verus!
