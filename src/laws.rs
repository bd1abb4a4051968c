use crate::admission::{admission, InvalidTransaction, ValidTransaction};
use crate::pallet::{add_step, remove_step, Error};
use crate::store::AccountId;
use vstd::prelude::*;

verus! {

/// Adding an account that is not on the list twice in a row, as an
/// authorized origin, succeeds the first time and is refused with
/// `Duplicate` the second time; afterwards the account is on the list once,
/// and the second call changed nothing.
pub proof fn add_twice_is_refused_as_duplicate(allowed: Set<AccountId>, who: AccountId)
    requires
        !allowed.contains(who),
    ensures
        add_step(allowed, true, who).0 == Ok::<(), Error>(()),
        add_step(add_step(allowed, true, who).1, true, who).0 == Err::<(), Error>(Error::Duplicate),
        add_step(add_step(allowed, true, who).1, true, who).1 == allowed.insert(who),
        add_step(add_step(allowed, true, who).1, true, who).1.contains(who),
{
}

/// Removing an account that is on the list, as an authorized origin,
/// succeeds once and is then refused with `AccountNotAdded`; the account's
/// transactions are admitted before the removal and turned away with
/// `BadSigner` after it, whatever their weight.
pub proof fn remove_twice_is_refused_and_admission_flips(
    allowed: Set<AccountId>,
    who: AccountId,
    weight: u64,
)
    requires
        allowed.contains(who),
    ensures
        remove_step(allowed, true, who).0 == Ok::<(), Error>(()),
        remove_step(remove_step(allowed, true, who).1, true, who).0 == Err::<(), Error>(
            Error::AccountNotAdded,
        ),
        remove_step(remove_step(allowed, true, who).1, true, who).1 == allowed.remove(who),
        admission(allowed, who, weight) is Ok,
        admission(remove_step(allowed, true, who).1, who, weight) == Err::<
            ValidTransaction,
            InvalidTransaction,
        >(InvalidTransaction::BadSigner),
{
}

/// An origin that may not manage the list is refused with `NotAuthorized`
/// by both management operations, and the list stays as it was, whether or
/// not the account is on it.
pub proof fn unauthorized_origin_changes_nothing(allowed: Set<AccountId>, who: AccountId)
    ensures
        add_step(allowed, false, who) == (Err::<(), Error>(Error::NotAuthorized), allowed),
        remove_step(allowed, false, who) == (Err::<(), Error>(Error::NotAuthorized), allowed),
{
}

} // verus!
