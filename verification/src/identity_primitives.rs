//! The identity gate as the engine sees it.

use vstd::prelude::*;

verus! {

/// A registry of identities, which answers whether a participant may act.
pub trait Identifiable<AccountId, IdentityDetails> {
    /// The identities on record.
    spec fn identities(&self) -> Map<AccountId, IdentityDetails>;

    /// Whether `caller` has an identity on record.
    fn is_identified(&self, caller: &AccountId) -> (identified: bool)
        ensures
            identified == self.identities().contains_key(*caller),
    ;

    /// Puts `identity_details` on record for `who`, in place of what was
    /// there.
    fn set_identity(&mut self, who: &AccountId, identity_details: IdentityDetails)
        ensures
            final(self).identities() == old(self).identities().insert(*who, identity_details),
    ;

    /// What is on record for `who`.
    fn get_identity(&self, who: &AccountId) -> (details: Option<IdentityDetails>)
        ensures
            details == if self.identities().contains_key(*who) {
                Some(self.identities()[*who])
            } else {
                None
            },
    ;
}

} // verus!
