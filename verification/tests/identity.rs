use atomic_swap::error::Error;
use atomic_swap::identity::{
    check_ownership, element_to_key, get_caller_key, same_address, AccessRights, AccountHash,
    CallStackElement, ContractHash, ContractPackageHash, Key, ToKey, URef,
};

fn account(byte: u8) -> AccountHash {
    AccountHash::new([byte; 32])
}

#[test]
fn addresses_compare_byte_by_byte() {
    let a = [7u8; 32];
    let mut b = [7u8; 32];
    assert!(same_address(&a, &b));
    b[31] = 8;
    assert!(!same_address(&a, &b));
    b[31] = 7;
    b[0] = 0;
    assert!(!same_address(&a, &b));
}

#[test]
fn keys_of_different_kinds_differ() {
    assert_eq!(Key::Account(account(1)), Key::Account(account(1)));
    assert_ne!(Key::Account(account(1)), Key::Account(account(2)));
    assert_ne!(Key::Account(account(1)), Key::Hash([1; 32]));
    assert_eq!(Key::Hash([1; 32]), Key::Hash([1; 32]));
}

#[test]
fn the_owner_is_the_caller_with_the_same_key() {
    let owner = Key::Account(account(1));
    assert!(check_ownership(&Key::Account(account(1)), &owner));
    assert!(!check_ownership(&Key::Account(account(2)), &owner));
    assert!(!check_ownership(&Key::Hash([1; 32]), &owner));
}

#[test]
fn nobody_is_the_account_of_zeros() {
    assert_eq!(Key::null(), Key::Account(AccountHash::new([0; 32])));
}

#[test]
fn what_stands_for_a_party() {
    assert_eq!(account(3).to_key(), Key::Account(account(3)));
    assert_eq!(ContractHash::new([4; 32]).to_key(), Key::Hash([4; 32]));
    assert_eq!(ContractPackageHash::new([5; 32]).to_key(), Key::Hash([5; 32]));
    assert_eq!(account(3).value(), [3; 32]);
    assert_eq!(ContractHash::new([4; 32]).value(), [4; 32]);
    assert_eq!(ContractPackageHash::new([5; 32]).value(), [5; 32]);
}

#[test]
fn a_frame_stands_for_its_account_or_its_package() {
    let session = CallStackElement::Session { account_hash: account(1) };
    let stored_session = CallStackElement::StoredSession {
        account_hash: account(2),
        contract_package_hash: ContractPackageHash::new([3; 32]),
        contract_hash: ContractHash::new([4; 32]),
    };
    let stored_contract = CallStackElement::StoredContract {
        contract_package_hash: ContractPackageHash::new([5; 32]),
        contract_hash: ContractHash::new([6; 32]),
    };
    assert_eq!(element_to_key(&session), Key::Account(account(1)));
    assert_eq!(element_to_key(&stored_session), Key::Account(account(2)));
    assert_eq!(element_to_key(&stored_contract), Key::Hash([5; 32]));
}

#[test]
fn the_caller_is_the_frame_below_the_top() {
    let session = CallStackElement::Session { account_hash: account(1) };
    let relay = CallStackElement::StoredContract {
        contract_package_hash: ContractPackageHash::new([5; 32]),
        contract_hash: ContractHash::new([6; 32]),
    };
    let escrow = CallStackElement::StoredContract {
        contract_package_hash: ContractPackageHash::new([7; 32]),
        contract_hash: ContractHash::new([8; 32]),
    };
    assert_eq!(get_caller_key(&vec![session, escrow]), Ok(Key::Account(account(1))));
    assert_eq!(get_caller_key(&vec![session, relay, escrow]), Ok(Key::Hash([5; 32])));
}

#[test]
fn a_short_call_stack_names_no_caller() {
    let escrow = CallStackElement::StoredContract {
        contract_package_hash: ContractPackageHash::new([7; 32]),
        contract_hash: ContractHash::new([8; 32]),
    };
    assert_eq!(get_caller_key(&vec![]), Err(Error::InvalidContext));
    assert_eq!(get_caller_key(&vec![escrow]), Err(Error::InvalidContext));
}

#[test]
fn read_add_takes_the_right_to_write_away() {
    let all = AccessRights { read: true, write: true, add: true };
    let purse = URef::new([9; 32], all);
    assert_eq!(purse.addr(), [9; 32]);
    assert_eq!(purse.access_rights(), all);
    let scoped = purse.into_read_add();
    assert_eq!(scoped, URef([9; 32], AccessRights { read: true, write: false, add: true }));
    assert_eq!(AccessRights::read_add(), AccessRights { read: true, write: false, add: true });
    assert_ne!(scoped, purse);
}
