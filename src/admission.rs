use crate::store::{AccountId, AllowListStore};
use vstd::prelude::*;

verus! {

/// How far ahead the host may order a transaction.
pub type TransactionPriority = u64;

/// For how many blocks an admission stays valid.
pub type TransactionLongevity = u64;

/// What the host knows of a transaction's cost.
#[derive(Clone, Copy, Debug, PartialEq, Eq, Structural)]
pub struct DispatchInfo {
    pub weight: u64,
}

impl Default for DispatchInfo {
    fn default() -> (r: Self)
        ensures
            r.weight == 0,
    {
        DispatchInfo { weight: 0 }
    }
}

/// The terms on which a transaction is admitted.
#[derive(Clone, Copy, Debug, PartialEq, Eq, Structural)]
pub struct ValidTransaction {
    pub priority: TransactionPriority,
    pub longevity: TransactionLongevity,
    pub propagate: bool,
}

/// Why a transaction is turned away.
#[derive(Clone, Copy, Debug, PartialEq, Eq, Structural)]
pub enum InvalidTransaction {
    /// The signer is not on the allow-list.
    BadSigner,
}

/// The outcome of the admission check.
pub type TransactionValidity = Result<ValidTransaction, InvalidTransaction>;

/// The decision for a transaction of weight `weight` signed by `who`, given
/// the accounts on the list.
pub open spec fn admission(allowed: Set<AccountId>, who: AccountId, weight: u64) -> TransactionValidity {
    if allowed.contains(who) {
        Ok(ValidTransaction { priority: weight, longevity: u64::MAX, propagate: true })
    } else {
        Err(InvalidTransaction::BadSigner)
    }
}

/// The admission check: only accounts on the allow-list may submit
/// transactions.
#[derive(Clone, Copy, Debug, PartialEq, Eq, Structural)]
pub struct AllowAccount;

impl AllowAccount {
    pub fn new() -> (r: Self)
        ensures
            r == AllowAccount,
    {
        AllowAccount
    }

    /// Nothing beyond the transaction itself is signed.
    pub fn additional_signed(&self) -> (r: Result<(), InvalidTransaction>)
        ensures
            r == Ok::<(), InvalidTransaction>(()),
    {
        Ok(())
    }

    /// Admits a transaction signed by an account on the list, with its weight
    /// as priority, the largest longevity and propagation on; turns away any
    /// other with `BadSigner`. The decision depends on the list's contents and
    /// the arguments alone, and the list is only read.
    pub fn validate(
        &self,
        accounts: &AllowListStore,
        who: &AccountId,
        info: &DispatchInfo,
        _len: usize,
    ) -> (r: TransactionValidity)
        ensures
            r == admission(accounts@, *who, info.weight),
    {
        if accounts.contains(*who) {
            Ok(
                ValidTransaction {
                    priority: info.weight,
                    longevity: TransactionLongevity::MAX,
                    propagate: true,
                },
            )
        } else {
            Err(InvalidTransaction::BadSigner)
        }
    }

    /// The same check, made again just before the transaction runs.
    pub fn pre_dispatch(
        self,
        accounts: &AllowListStore,
        who: &AccountId,
        info: &DispatchInfo,
        len: usize,
    ) -> (r: Result<(), InvalidTransaction>)
        ensures
            r is Ok <==> accounts@.contains(*who),
            r is Err ==> r == Err::<(), InvalidTransaction>(InvalidTransaction::BadSigner),
    {
        match self.validate(accounts, who, info, len) {
            Ok(_) => Ok(()),
            Err(e) => Err(e),
        }
    }
}

} // verus!
