use demoquad::simple_identity::{Config, Error, Event, Pallet};
use demoquad::Identifiable;
use sp_core::{Hasher, H256};
use sp_runtime::traits::BlakeTwo256;

fn hash(b: &[u8]) -> H256 {
    BlakeTwo256::hash(b)
}

/// Why the host turned a call down.
#[derive(Clone, Copy, Debug, PartialEq, Eq)]
enum DispatchError {
    /// The registry's own error.
    Identity(Error),
    /// The currency could not reserve the fee.
    InsufficientBalance,
    /// The caller is not the superuser.
    BadOrigin,
}

/// Free and reserved funds of one account.
#[derive(Clone, Copy, Debug, PartialEq, Eq)]
struct Account {
    who: u64,
    free: u128,
    reserved: u128,
}

/// A host around the registry: it owns the currency and knows the
/// superuser, and does with the funds what the registry's answers say.
#[derive(Clone, Debug, PartialEq, Eq)]
struct Host {
    superuser: u64,
    accounts: Vec<Account>,
    identity: Pallet<H256>,
}

fn new_test_ext() -> Host {
    Host {
        superuser: 1,
        accounts: vec![
            Account { who: 1, free: 10, reserved: 0 },
            Account { who: 2, free: 10, reserved: 0 },
        ],
        identity: Pallet::new(Config { reservation_fee: 2 }),
    }
}

impl Host {
    fn account(&mut self, who: u64) -> Option<&mut Account> {
        self.accounts.iter_mut().find(|account| account.who == who)
    }

    fn free_balance(&self, who: u64) -> u128 {
        self.accounts.iter().find(|a| a.who == who).map_or(0, |a| a.free)
    }

    fn reserved_balance(&self, who: u64) -> u128 {
        self.accounts.iter().find(|a| a.who == who).map_or(0, |a| a.reserved)
    }

    fn total_balance(&self, who: u64) -> u128 {
        self.free_balance(who) + self.reserved_balance(who)
    }

    fn reserve(&mut self, who: u64, amount: u128) -> Result<(), DispatchError> {
        match self.account(who) {
            Some(account) if account.free >= amount => {
                account.free -= amount;
                account.reserved += amount;
                Ok(())
            }
            _ => Err(DispatchError::InsufficientBalance),
        }
    }

    fn unreserve(&mut self, who: u64, amount: u128) {
        if let Some(account) = self.account(who) {
            let released = amount.min(account.reserved);
            account.reserved -= released;
            account.free += released;
        }
    }

    fn slash_reserved(&mut self, who: u64, amount: u128) {
        if let Some(account) = self.account(who) {
            account.reserved -= amount.min(account.reserved);
        }
    }

    fn ensure_superuser(&self, origin: u64) -> Result<(), DispatchError> {
        if origin == self.superuser {
            Ok(())
        } else {
            Err(DispatchError::BadOrigin)
        }
    }

    fn set_hash(&mut self, origin: u64, hash: H256) -> Result<(), DispatchError> {
        if let Some(fee) = self.identity.reservation_due(origin) {
            self.reserve(origin, fee)?;
        }
        self.identity.set_hash(origin, hash);
        Ok(())
    }

    fn clear_hash(&mut self, origin: u64) -> Result<(), DispatchError> {
        match self.identity.clear_hash(origin).map_err(DispatchError::Identity)? {
            Event::HashCleared { who, deposit } => self.unreserve(who, deposit),
            other => panic!("unexpected event {:?}", other),
        }
        Ok(())
    }

    fn kill_hash(&mut self, origin: u64, target: u64) -> Result<(), DispatchError> {
        self.ensure_superuser(origin)?;
        match self.identity.kill_hash(target).map_err(DispatchError::Identity)? {
            Event::HashKilled { target, deposit } => self.slash_reserved(target, deposit),
            other => panic!("unexpected event {:?}", other),
        }
        Ok(())
    }

    fn force_hash(&mut self, origin: u64, target: u64, hash: H256) -> Result<(), DispatchError> {
        self.ensure_superuser(origin)?;
        self.identity.force_hash(target, hash);
        Ok(())
    }
}

#[test]
fn kill_hash_should_work() {
    let mut t = new_test_ext();
    assert_eq!(t.set_hash(2, hash(b"Dave")), Ok(()));
    assert_eq!(t.total_balance(2), 10);
    assert_eq!(t.kill_hash(1, 2), Ok(()));
    assert_eq!(t.total_balance(2), 8);
    assert_eq!(t.identity.get_identity(&2), None);
}

#[test]
fn force_hash_should_work() {
    let mut t = new_test_ext();
    assert_eq!(t.set_hash(2, hash(b"Dave")), Ok(()));
    assert_eq!(t.reserved_balance(2), 2);
    assert_eq!(t.force_hash(1, 2, hash(b"Dr. Brubeck, III")), Ok(()));
    assert_eq!(t.reserved_balance(2), 2);
    let (name, amount) = t.identity.get_identity(&2).unwrap();
    assert_eq!(name, hash(b"Dr. Brubeck, III"));
    assert_eq!(amount, 2);
}

#[test]
fn normal_operation_should_work() {
    let mut t = new_test_ext();
    assert_eq!(t.set_hash(1, hash(b"Gav")), Ok(()));
    assert_eq!(t.reserved_balance(1), 2);
    assert_eq!(t.free_balance(1), 8);
    assert_eq!(t.identity.get_identity(&1).unwrap().0, hash(b"Gav"));

    assert_eq!(t.set_hash(1, hash(b"Gavin")), Ok(()));
    assert_eq!(t.reserved_balance(1), 2);
    assert_eq!(t.free_balance(1), 8);
    assert_eq!(t.identity.get_identity(&1).unwrap().0, hash(b"Gavin"));

    assert_eq!(t.clear_hash(1), Ok(()));
    assert_eq!(t.reserved_balance(1), 0);
    assert_eq!(t.free_balance(1), 10);
}

#[test]
fn error_catching_should_work() {
    let mut t = new_test_ext();
    let before = t.clone();
    assert_eq!(t.clear_hash(1), Err(DispatchError::Identity(Error::NotExists)));
    assert_eq!(t, before);

    assert_eq!(t.set_hash(3, hash(b"Dave")), Err(DispatchError::InsufficientBalance));
    assert_eq!(t, before);

    assert_eq!(t.set_hash(1, hash(b"Dave")), Ok(()));
    let before = t.clone();
    assert_eq!(t.kill_hash(2, 1), Err(DispatchError::BadOrigin));
    assert_eq!(t, before);
    assert_eq!(t.force_hash(2, 1, hash(b"Whatever")), Err(DispatchError::BadOrigin));
    assert_eq!(t, before);
}

#[test]
fn first_hash_costs_the_fee_and_a_change_costs_nothing() {
    let mut registry: Pallet<H256> = Pallet::new(Config { reservation_fee: 7 });
    assert_eq!(registry.config(), Config { reservation_fee: 7 });
    assert_eq!(registry.reservation_due(4), Some(7));
    assert_eq!(registry.set_hash(4, hash(b"one")), Event::HashSet { who: 4 });
    assert_eq!(registry.get_identity(&4), Some((hash(b"one"), 7)));
    assert_eq!(registry.reservation_due(4), None);
    assert_eq!(registry.set_hash(4, hash(b"two")), Event::HashChanged { who: 4 });
    assert_eq!(registry.get_identity(&4), Some((hash(b"two"), 7)));
    assert_eq!(registry.reservation_due(5), Some(7));
}

#[test]
fn clear_and_kill_report_the_deposit_and_forget_the_account() {
    let mut registry: Pallet<H256> = Pallet::new(Config { reservation_fee: 3 });
    registry.set_hash(1, hash(b"a"));
    registry.set_hash(2, hash(b"b"));
    assert_eq!(registry.clear_hash(1), Ok(Event::HashCleared { who: 1, deposit: 3 }));
    assert!(!registry.is_identified(&1));
    assert!(registry.is_identified(&2));
    assert_eq!(registry.clear_hash(1), Err(Error::NotExists));
    assert_eq!(registry.kill_hash(2), Ok(Event::HashKilled { target: 2, deposit: 3 }));
    assert!(!registry.is_identified(&2));
    assert_eq!(registry.kill_hash(2), Err(Error::NotExists));
    assert_eq!(registry.kill_hash(9), Err(Error::NotExists));
}

#[test]
fn forced_hash_on_a_new_account_holds_no_deposit() {
    let mut registry: Pallet<H256> = Pallet::new(Config { reservation_fee: 3 });
    assert_eq!(registry.force_hash(6, hash(b"forced")), Event::HashForced { target: 6 });
    assert_eq!(registry.get_identity(&6), Some((hash(b"forced"), 0)));
    assert_eq!(registry.reservation_due(6), None);
    assert_eq!(registry.clear_hash(6), Ok(Event::HashCleared { who: 6, deposit: 0 }));
}

#[test]
fn identities_can_be_put_on_record_directly() {
    let mut registry: Pallet<H256> = Pallet::new(Config { reservation_fee: 3 });
    assert!(!registry.is_identified(&8));
    assert_eq!(registry.get_identity(&8), None);
    registry.set_identity(&8, (hash(b"eight"), 11));
    assert!(registry.is_identified(&8));
    assert_eq!(registry.get_identity(&8), Some((hash(b"eight"), 11)));
    registry.set_identity(&8, (hash(b"acht"), 12));
    assert_eq!(registry.get_identity(&8), Some((hash(b"acht"), 12)));
    assert!(!registry.is_identified(&9));
}
