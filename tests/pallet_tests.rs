use account_filter::admission::{AllowAccount, DispatchInfo, InvalidTransaction};
use account_filter::pallet::{EnsureRoot, Error, Event, GenesisConfig, Origin, Pallet};

fn test() -> Pallet<EnsureRoot> {
    GenesisConfig { allowed_accounts: vec![(1, ()), (2, ())] }.build(EnsureRoot)
}

#[test]
fn default_test() {
    let filter = test();
    assert!(matches!(filter.allowed_accounts(1u64), Some(_)));
    assert!(matches!(filter.allowed_accounts(2u64), Some(_)));
}

#[test]
fn test_adding() {
    let mut filter = test();
    assert_eq!(filter.allowed_accounts(4u64), None);
    assert_eq!(filter.add_account(Origin::Root, 4), Ok(()));
    assert!(filter.events().contains(&Event::AccountAllowed(4u64)));
    assert!(matches!(filter.allowed_accounts(4u64), Some(_)));
}

#[test]
fn removed_account() {
    let mut filter = test();
    assert!(matches!(filter.allowed_accounts(2u64), Some(_)));
    assert_eq!(filter.remove_account(Origin::Root, 2), Ok(()));
    assert!(filter.events().contains(&Event::AccountRemoved(2u64)));
    assert_eq!(filter.allowed_accounts(2u64), None);
}

#[test]
fn failure_to_add_with_bad_origin() {
    let mut filter = test();
    assert_eq!(filter.add_account(Origin::Signed(1), 4), Err(Error::NotAuthorized));
    assert_eq!(filter.allowed_accounts(4u64), None);
    assert!(filter.events().is_empty());
}

#[test]
fn failure_to_remove_with_bad_origin() {
    let mut filter = test();
    assert_eq!(filter.remove_account(Origin::Signed(1), 2), Err(Error::NotAuthorized));
    assert!(matches!(filter.allowed_accounts(2u64), Some(_)));
    assert!(filter.events().is_empty());
}

#[test]
fn duplicate_adding_failure() {
    let mut filter = test();
    assert!(matches!(filter.allowed_accounts(2u64), Some(_)));
    assert_eq!(filter.add_account(Origin::Root, 2u64), Err(Error::Duplicate));
    assert!(matches!(filter.allowed_accounts(2u64), Some(_)));
    assert!(filter.events().is_empty());
}

#[test]
fn removing_failure() {
    let mut filter = test();
    assert_eq!(filter.allowed_accounts(4u64), None);
    assert_eq!(filter.remove_account(Origin::Root, 4), Err(Error::AccountNotAdded));
    assert_eq!(filter.allowed_accounts(4u64), None);
    assert!(filter.events().is_empty());
}

#[test]
fn send_transfer_success() {
    let filter = test();
    let info = DispatchInfo::default();
    let len = 0_usize;
    assert!(matches!(filter.allowed_accounts(2u64), Some(_)));
    assert!(AllowAccount::new().validate(filter.allow_list(), &2, &info, len).is_ok());
}

#[test]
fn send_transfer_failure() {
    let filter = test();
    let info = DispatchInfo::default();
    let len = 0_usize;
    assert_eq!(filter.allowed_accounts(3u64), None);
    assert_eq!(
        AllowAccount::new().validate(filter.allow_list(), &3, &info, len),
        Err(InvalidTransaction::BadSigner)
    );
}

#[test]
fn send_success_after_adding_account() {
    let mut filter = test();
    let info = DispatchInfo::default();
    let len = 0_usize;
    assert_eq!(filter.allowed_accounts(3u64), None);
    assert_eq!(
        AllowAccount::new().validate(filter.allow_list(), &3, &info, len),
        Err(InvalidTransaction::BadSigner)
    );
    assert_eq!(filter.add_account(Origin::Root, 3), Ok(()));
    assert!(AllowAccount::new().validate(filter.allow_list(), &3, &info, len).is_ok());
}

#[test]
fn send_fails_after_removing() {
    let mut filter = test();
    let info = DispatchInfo::default();
    let len = 0_usize;
    assert!(matches!(filter.allowed_accounts(2u64), Some(_)));
    assert!(AllowAccount::new().validate(filter.allow_list(), &2, &info, len).is_ok());
    assert_eq!(filter.remove_account(Origin::Root, 2), Ok(()));
    assert_eq!(
        AllowAccount::new().validate(filter.allow_list(), &2, &info, len),
        Err(InvalidTransaction::BadSigner)
    );
}
