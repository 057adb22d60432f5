//! A simple identity registry: one hash per account, held against a deposit.
//!
//! The registry decides and records; the currency stays with the host. Each
//! call says, in what it returns, which amount the host has to reserve,
//! release or slash.

use std::collections::HashMap;
use vstd::prelude::*;
use crate::identity_primitives::Identifiable;
use crate::types::AccountId;

verus! {

/// An amount of the host's currency.
pub type Balance = u128;

/// Deployment parameters of the registry.
#[derive(Clone, Copy, Debug, PartialEq, Eq, Structural)]
pub struct Config {
    /// What an account has reserved while its hash is on record.
    pub reservation_fee: Balance,
}

/// What the registry reports.
#[derive(Clone, Copy, Debug, PartialEq, Eq, Structural)]
pub enum Event {
    /// A hash was set.
    HashSet { who: AccountId },
    /// A hash was forcibly set.
    HashForced { target: AccountId },
    /// A hash was changed.
    HashChanged { who: AccountId },
    /// A hash was cleared, and the given deposit is to be released.
    HashCleared { who: AccountId, deposit: Balance },
    /// A hash was removed, and the given deposit is to be slashed.
    HashKilled { target: AccountId, deposit: Balance },
}

/// Why a call was turned down.
#[derive(Clone, Copy, Debug, PartialEq, Eq, Structural)]
pub enum Error {
    /// The account has no hash on record.
    NotExists,
}

/// The lookup table for hashes: for each identified account its hash and
/// the deposit held for it.
#[derive(Clone, Debug, PartialEq, Eq)]
pub struct Pallet<Hash> {
    config: Config,
    identities: HashMap<AccountId, (Hash, Balance)>,
}

/// The deposit on record for `who`, or nothing.
pub open spec fn deposit_of<Hash>(
    identities: Map<AccountId, (Hash, Balance)>,
    who: AccountId,
) -> Balance {
    if identities.contains_key(who) {
        identities[who].1
    } else {
        0
    }
}

impl<Hash: Copy> View for Pallet<Hash> {
    type V = Map<AccountId, (Hash, Balance)>;

    closed spec fn view(&self) -> Map<AccountId, (Hash, Balance)> {
        self.identities@
    }
}

impl<Hash: Copy> Pallet<Hash> {
    /// The deployment parameters.
    pub closed spec fn spec_config(&self) -> Config {
        self.config
    }

    /// A registry without identities.
    pub fn new(config: Config) -> (registry: Pallet<Hash>)
        ensures
            registry@ == Map::<AccountId, (Hash, Balance)>::empty(),
            registry.spec_config() == config,
    {
        Pallet { config, identities: HashMap::new() }
    }

    /// The deployment parameters.
    #[verifier::when_used_as_spec(spec_config)]
    pub fn config(&self) -> (config: Config)
        ensures
            config == self.spec_config(),
    {
        self.config
    }

    /// What `sender` has to reserve before `set_hash`: the reservation fee
    /// for a first hash, nothing for a change.
    pub fn reservation_due(&self, sender: AccountId) -> (due: Option<Balance>)
        ensures
            due == if self@.contains_key(sender) {
                None
            } else {
                Some(self.spec_config().reservation_fee)
            },
    {
        if self.identities.contains_key(&sender) {
            None
        } else {
            Some(self.config.reservation_fee)
        }
    }

    /// Sets a new hash or changes it. A change keeps the deposit on record;
    /// a first hash is recorded with the reservation fee as its deposit.
    pub fn set_hash(&mut self, sender: AccountId, hash: Hash) -> (event: Event)
        ensures
            final(self).spec_config() == old(self).spec_config(),
            old(self)@.contains_key(sender) ==> {
                &&& event == (Event::HashChanged { who: sender })
                &&& final(self)@ == old(self)@.insert(sender, (hash, old(self)@[sender].1))
            },
            !old(self)@.contains_key(sender) ==> {
                &&& event == (Event::HashSet { who: sender })
                &&& final(self)@ == old(self)@.insert(
                    sender,
                    (hash, old(self).spec_config().reservation_fee),
                )
            },
    {
        let (deposit, event) = match self.identities.get(&sender) {
            Some(details) => (details.1, Event::HashChanged { who: sender }),
            None => (self.config.reservation_fee, Event::HashSet { who: sender }),
        };
        self.identities.insert(sender, (hash, deposit));
        event
    }

    /// Clears the hash of `sender` and reports the deposit to release.
    pub fn clear_hash(&mut self, sender: AccountId) -> (r: Result<Event, Error>)
        ensures
            final(self).spec_config() == old(self).spec_config(),
            old(self)@.contains_key(sender) ==> {
                &&& r == Ok::<Event, Error>(
                    Event::HashCleared { who: sender, deposit: old(self)@[sender].1 },
                )
                &&& final(self)@ == old(self)@.remove(sender)
            },
            !old(self)@.contains_key(sender) ==> {
                &&& r == Err::<Event, Error>(Error::NotExists)
                &&& final(self)@ == old(self)@
            },
    {
        match self.identities.remove(&sender) {
            Some(details) => Ok(Event::HashCleared { who: sender, deposit: details.1 }),
            None => Err(Error::NotExists),
        }
    }

    /// Removes the hash of `target` and reports the deposit to slash.
    pub fn kill_hash(&mut self, target: AccountId) -> (r: Result<Event, Error>)
        ensures
            final(self).spec_config() == old(self).spec_config(),
            old(self)@.contains_key(target) ==> {
                &&& r == Ok::<Event, Error>(
                    Event::HashKilled { target, deposit: old(self)@[target].1 },
                )
                &&& final(self)@ == old(self)@.remove(target)
            },
            !old(self)@.contains_key(target) ==> {
                &&& r == Err::<Event, Error>(Error::NotExists)
                &&& final(self)@ == old(self)@
            },
    {
        match self.identities.remove(&target) {
            Some(details) => Ok(Event::HashKilled { target, deposit: details.1 }),
            None => Err(Error::NotExists),
        }
    }

    /// Sets the hash of `target` without a deposit of its own: a deposit
    /// already on record stays, an account new to the registry gets none.
    pub fn force_hash(&mut self, target: AccountId, hash: Hash) -> (event: Event)
        ensures
            final(self).spec_config() == old(self).spec_config(),
            event == (Event::HashForced { target }),
            final(self)@ == old(self)@.insert(target, (hash, deposit_of(old(self)@, target))),
    {
        let deposit = match self.identities.get(&target) {
            Some(details) => details.1,
            None => 0,
        };
        self.identities.insert(target, (hash, deposit));
        Event::HashForced { target }
    }
}

impl<Hash: Copy> Identifiable<AccountId, (Hash, Balance)> for Pallet<Hash> {
    open spec fn identities(&self) -> Map<AccountId, (Hash, Balance)> {
        self@
    }

    fn is_identified(&self, caller: &AccountId) -> (identified: bool) {
        self.identities.contains_key(caller)
    }

    fn set_identity(&mut self, who: &AccountId, identity_details: (Hash, Balance)) {
        self.identities.insert(*who, identity_details);
    }

    fn get_identity(&self, who: &AccountId) -> (details: Option<(Hash, Balance)>) {
        match self.identities.get(who) {
            Some(details) => Some(*details),
            None => None,
        }
    }
}

} // verus!
