use std::collections::HashSet;
use vstd::prelude::*;

verus! {

broadcast use vstd::std_specs::hash::group_hash_axioms;

/// The identity of an account.
pub type AccountId = u64;

/// The set of accounts that may submit transactions.
///
/// Membership is all that is stored: an account is either present or absent.
pub struct AllowListStore {
    accounts: HashSet<AccountId>,
}

impl View for AllowListStore {
    type V = Set<AccountId>;

    closed spec fn view(&self) -> Set<AccountId> {
        self.accounts@
    }
}

impl AllowListStore {
    /// An empty store.
    pub fn new() -> (r: Self)
        ensures
            r@ == Set::<AccountId>::empty(),
    {
        AllowListStore { accounts: HashSet::new() }
    }

    /// Whether `who` is on the list.
    pub fn contains(&self, who: AccountId) -> (r: bool)
        ensures
            r == self@.contains(who),
    {
        self.accounts.contains(&who)
    }

    /// Puts `who` on the list; an account already there stays there once.
    pub fn insert(&mut self, who: AccountId)
        ensures
            final(self)@ == old(self)@.insert(who),
    {
        self.accounts.insert(who);
    }

    /// Takes `who` off the list; an absent account leaves the list as it was.
    pub fn remove(&mut self, who: AccountId)
        ensures
            final(self)@ == old(self)@.remove(who),
    {
        self.accounts.remove(&who);
    }

    /// The number of accounts on the list.
    pub fn len(&self) -> (r: usize)
        ensures
            r == self@.len(),
    {
        self.accounts.len()
    }
}

} // verus!
