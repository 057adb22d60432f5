//! A time-windowed proposal-and-voting engine.
//!
//! Identified participants submit text proposals that stay open for a fixed
//! number of ticks, other participants cast one ballot each, and at the tick
//! at which a proposal closes the engine tallies the ballots and reports the
//! verdict, once.

pub mod history;
pub mod identity_primitives;
pub mod laws;
pub mod ledger;
pub mod model;
pub mod pallet;
pub mod rules;
pub mod schedule;
pub mod simple_identity;
pub mod store;
pub mod types;

pub use identity_primitives::Identifiable;
pub use ledger::VoteLedger;
pub use pallet::Pallet;
pub use schedule::ExpirySchedule;
pub use store::ProposalStore;
pub use types::{AccountId, Choice, Config, Error, Event, Proposal, ProposalId, Tick};
