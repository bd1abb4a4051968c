use crate::store::{AccountId, AllowListStore};
use vstd::prelude::*;

verus! {

/// Who is asking for a management operation.
#[derive(Clone, Copy, Debug, PartialEq, Eq, Structural)]
pub enum Origin {
    /// The administrative origin.
    Root,
    /// A transaction signed by an account.
    Signed(AccountId),
    /// An unsigned submission.
    Unsigned,
}

/// The host's decision of which origins may change the allow-list.
pub trait Config {
    /// Whether `origin` may add or remove accounts.
    spec fn is_authorized(&self, origin: Origin) -> bool;

    /// Decides whether `origin` may add or remove accounts.
    fn ensure_origin(&self, origin: &Origin) -> (r: bool)
        ensures
            r == self.is_authorized(*origin),
    ;
}

/// Lets the administrative origin, and no other, manage the list.
#[derive(Clone, Copy, Debug, PartialEq, Eq, Structural)]
pub struct EnsureRoot;

impl Config for EnsureRoot {
    open spec fn is_authorized(&self, origin: Origin) -> bool {
        origin is Root
    }

    fn ensure_origin(&self, origin: &Origin) -> (r: bool) {
        match origin {
            Origin::Root => true,
            _ => false,
        }
    }
}

/// A notification of a change to the allow-list.
#[derive(Clone, Copy, Debug, PartialEq, Eq, Structural)]
pub enum Event {
    /// The account was put on the list.
    AccountAllowed(AccountId),
    /// The account was taken off the list.
    AccountRemoved(AccountId),
}

/// Why a management operation was refused.
#[derive(Clone, Copy, Debug, PartialEq, Eq, Structural)]
pub enum Error {
    /// The origin may not manage the list.
    NotAuthorized,
    /// The account is already on the list.
    Duplicate,
    /// The account is not on the list.
    AccountNotAdded,
}

/// What `add_account` returns, and the list after it, given the list before
/// it and whether the origin was authorized.
pub open spec fn add_step(allowed: Set<AccountId>, authorized: bool, who: AccountId) -> (
    Result<(), Error>,
    Set<AccountId>,
) {
    if !authorized {
        (Err(Error::NotAuthorized), allowed)
    } else if allowed.contains(who) {
        (Err(Error::Duplicate), allowed)
    } else {
        (Ok(()), allowed.insert(who))
    }
}

/// What `remove_account` returns, and the list after it, given the list
/// before it and whether the origin was authorized.
pub open spec fn remove_step(allowed: Set<AccountId>, authorized: bool, who: AccountId) -> (
    Result<(), Error>,
    Set<AccountId>,
) {
    if !authorized {
        (Err(Error::NotAuthorized), allowed)
    } else if !allowed.contains(who) {
        (Err(Error::AccountNotAdded), allowed)
    } else {
        (Ok(()), allowed.remove(who))
    }
}

/// The accounts named in a genesis list.
pub open spec fn seeded(entries: Seq<(AccountId, ())>) -> Set<AccountId> {
    Set::new(|a: AccountId| exists|i: int| 0 <= i < entries.len() && (#[trigger] entries[i]).0 == a)
}

/// The allow-list together with the origin check that guards it and the
/// notifications deposited so far.
pub struct Pallet<T: Config> {
    config: T,
    allowed_accounts: AllowListStore,
    events: Vec<Event>,
}

impl<T: Config> Pallet<T> {
    /// The accounts on the list.
    pub closed spec fn allowed(&self) -> Set<AccountId> {
        self.allowed_accounts@
    }

    /// The notifications deposited so far, oldest first.
    pub closed spec fn deposited(&self) -> Seq<Event> {
        self.events@
    }

    /// Whether `origin` may manage this list.
    pub closed spec fn authorizes(&self, origin: Origin) -> bool {
        self.config.is_authorized(origin)
    }

    /// Puts `new_account` on the list and deposits `AccountAllowed`.
    ///
    /// Refused with `NotAuthorized` for an origin that may not manage the list,
    /// and with `Duplicate` for an account already on it; a refusal changes
    /// nothing.
    pub fn add_account(&mut self, origin: Origin, new_account: AccountId) -> (r: Result<(), Error>)
        ensures
            (r, final(self).allowed()) == add_step(
                old(self).allowed(),
                old(self).authorizes(origin),
                new_account,
            ),
            r is Ok ==> final(self).deposited() == old(self).deposited().push(
                Event::AccountAllowed(new_account),
            ),
            r is Ok ==> forall|o: Origin| final(self).authorizes(o) == old(self).authorizes(o),
            r is Err ==> *final(self) == *old(self),
    {
        if !self.config.ensure_origin(&origin) {
            return Err(Error::NotAuthorized);
        }
        if self.allowed_accounts.contains(new_account) {
            return Err(Error::Duplicate);
        }
        self.allowed_accounts.insert(new_account);
        self.deposit_event(Event::AccountAllowed(new_account));
        Ok(())
    }

    /// Takes `account_to_remove` off the list and deposits `AccountRemoved`.
    ///
    /// Refused with `NotAuthorized` for an origin that may not manage the list,
    /// and with `AccountNotAdded` for an account not on it; a refusal changes
    /// nothing.
    pub fn remove_account(&mut self, origin: Origin, account_to_remove: AccountId) -> (r: Result<
        (),
        Error,
    >)
        ensures
            (r, final(self).allowed()) == remove_step(
                old(self).allowed(),
                old(self).authorizes(origin),
                account_to_remove,
            ),
            r is Ok ==> final(self).deposited() == old(self).deposited().push(
                Event::AccountRemoved(account_to_remove),
            ),
            r is Ok ==> forall|o: Origin| final(self).authorizes(o) == old(self).authorizes(o),
            r is Err ==> *final(self) == *old(self),
    {
        if !self.config.ensure_origin(&origin) {
            return Err(Error::NotAuthorized);
        }
        if !self.allowed_accounts.contains(account_to_remove) {
            return Err(Error::AccountNotAdded);
        }
        self.allowed_accounts.remove(account_to_remove);
        self.deposit_event(Event::AccountRemoved(account_to_remove));
        Ok(())
    }

    /// `Some(())` for an account on the list, `None` for one that is not.
    pub fn allowed_accounts(&self, who: AccountId) -> (r: Option<()>)
        ensures
            r is Some <==> self.allowed().contains(who),
    {
        if self.allowed_accounts.contains(who) {
            Some(())
        } else {
            None
        }
    }

    /// The list itself, for reading.
    pub fn allow_list(&self) -> (r: &AllowListStore)
        ensures
            r@ == self.allowed(),
    {
        &self.allowed_accounts
    }

    /// The notifications deposited so far, oldest first.
    pub fn events(&self) -> (r: &Vec<Event>)
        ensures
            r@ == self.deposited(),
    {
        &self.events
    }

    /// Puts every account of `allowed_accounts` on the list, without
    /// notifications.
    fn initialize_allowed_accounts(&mut self, allowed_accounts: &[(AccountId, ())])
        ensures
            final(self).allowed() == old(self).allowed().union(seeded(allowed_accounts@)),
            final(self).deposited() == old(self).deposited(),
            final(self).config == old(self).config,
    {
        let n: usize = allowed_accounts.len();
        let mut i: usize = 0;
        while i < n
            invariant
                n == allowed_accounts@.len(),
                i <= n,
                self.deposited() == old(self).deposited(),
                self.config == old(self).config,
                forall|a: AccountId|
                    self.allowed().contains(a) <==> (old(self).allowed().contains(a) || exists|
                        j: int,
                    |
                        0 <= j < i && (#[trigger] allowed_accounts@[j]).0 == a),
            decreases n - i,
        {
            let (account, _) = allowed_accounts[i];
            self.allowed_accounts.insert(account);
            assert forall|a: AccountId|
                self.allowed().contains(a) <==> (old(self).allowed().contains(a) || exists|
                    j: int,
                |
                    0 <= j < i + 1 && (#[trigger] allowed_accounts@[j]).0 == a) by {
                if a == account {
                    assert(allowed_accounts@[i as int].0 == a);
                }
            }
            i = i + 1;
        }
        assert(self.allowed() =~= old(self).allowed().union(seeded(allowed_accounts@)));
    }

    fn deposit_event(&mut self, event: Event)
        ensures
            final(self).deposited() == old(self).deposited().push(event),
            final(self).allowed() == old(self).allowed(),
            final(self).config == old(self).config,
    {
        self.events.push(event);
    }
}

/// The accounts on the list when the chain starts.
pub struct GenesisConfig {
    pub allowed_accounts: Vec<(AccountId, ())>,
}

impl Default for GenesisConfig {
    fn default() -> (r: Self)
        ensures
            r.allowed_accounts@ == Seq::<(AccountId, ())>::empty(),
    {
        GenesisConfig { allowed_accounts: Vec::new() }
    }
}

impl GenesisConfig {
    /// A pallet whose list holds exactly the genesis accounts, guarded by
    /// `config`, with no notification deposited.
    pub fn build<T: Config>(&self, config: T) -> (r: Pallet<T>)
        ensures
            r.allowed() == seeded(self.allowed_accounts@),
            r.deposited() == Seq::<Event>::empty(),
            forall|o: Origin| r.authorizes(o) == config.is_authorized(o),
    {
        let mut pallet = Pallet { config, allowed_accounts: AllowListStore::new(), events: Vec::new() };
        pallet.initialize_allowed_accounts(self.allowed_accounts.as_slice());
        assert(pallet.allowed() =~= seeded(self.allowed_accounts@));
        pallet
    }
}

} // verus!
