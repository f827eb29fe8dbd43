//! Who takes part in an escrow: accounts and contracts, the caller of a
//! call, and the purse that holds native currency.

use crate::error::Error;
use vstd::prelude::*;
use vstd::std_specs::cmp::PartialEqSpecImpl;

verus! {

/// Whether two 32-byte addresses are the same.
pub fn same_address(a: &[u8; 32], b: &[u8; 32]) -> (same: bool)
    ensures
        same == (*a == *b),
{
    let mut i: usize = 0;
    while i < 32
        invariant
            i <= 32,
            forall|j: int| 0 <= j < i ==> a[j] == b[j],
        decreases 32 - i,
    {
        if a[i] != b[i] {
            return false;
        }
        i += 1;
    }
    assert(*a =~= *b);
    true
}

/// The address of an account.
#[derive(Clone, Copy, Debug)]
pub struct AccountHash(pub [u8; 32]);

/// The address of one version of a contract.
#[derive(Clone, Copy, Debug)]
pub struct ContractHash(pub [u8; 32]);

/// The address of a contract package, which stays the same over versions.
#[derive(Clone, Copy, Debug)]
pub struct ContractPackageHash(pub [u8; 32]);

/// A party: an account, or a contract under its address.
#[derive(Clone, Copy, Debug)]
pub enum Key {
    Account(AccountHash),
    Hash([u8; 32]),
}

impl AccountHash {
    pub fn new(value: [u8; 32]) -> (account: AccountHash)
        ensures
            account == AccountHash(value),
    {
        AccountHash(value)
    }

    pub fn value(&self) -> (value: [u8; 32])
        ensures
            value == self.0,
    {
        self.0
    }
}

impl ContractHash {
    pub fn new(value: [u8; 32]) -> (contract: ContractHash)
        ensures
            contract == ContractHash(value),
    {
        ContractHash(value)
    }

    pub fn value(&self) -> (value: [u8; 32])
        ensures
            value == self.0,
    {
        self.0
    }
}

impl ContractPackageHash {
    pub fn new(value: [u8; 32]) -> (package: ContractPackageHash)
        ensures
            package == ContractPackageHash(value),
    {
        ContractPackageHash(value)
    }

    pub fn value(&self) -> (value: [u8; 32])
        ensures
            value == self.0,
    {
        self.0
    }
}

impl PartialEq for AccountHash {
    fn eq(&self, other: &AccountHash) -> (same: bool) {
        same_address(&self.0, &other.0)
    }
}

impl Eq for AccountHash {

}

impl PartialEqSpecImpl for AccountHash {
    open spec fn obeys_eq_spec() -> bool {
        true
    }

    open spec fn eq_spec(&self, other: &AccountHash) -> bool {
        *self == *other
    }
}

impl PartialEq for ContractHash {
    fn eq(&self, other: &ContractHash) -> (same: bool) {
        same_address(&self.0, &other.0)
    }
}

impl Eq for ContractHash {

}

impl PartialEqSpecImpl for ContractHash {
    open spec fn obeys_eq_spec() -> bool {
        true
    }

    open spec fn eq_spec(&self, other: &ContractHash) -> bool {
        *self == *other
    }
}

impl PartialEq for ContractPackageHash {
    fn eq(&self, other: &ContractPackageHash) -> (same: bool) {
        same_address(&self.0, &other.0)
    }
}

impl Eq for ContractPackageHash {

}

impl PartialEqSpecImpl for ContractPackageHash {
    open spec fn obeys_eq_spec() -> bool {
        true
    }

    open spec fn eq_spec(&self, other: &ContractPackageHash) -> bool {
        *self == *other
    }
}

impl PartialEq for Key {
    fn eq(&self, other: &Key) -> (same: bool) {
        match (self, other) {
            (Key::Account(a), Key::Account(b)) => same_address(&a.0, &b.0),
            (Key::Hash(a), Key::Hash(b)) => same_address(a, b),
            _ => false,
        }
    }
}

impl Eq for Key {

}

impl PartialEqSpecImpl for Key {
    open spec fn obeys_eq_spec() -> bool {
        true
    }

    open spec fn eq_spec(&self, other: &Key) -> bool {
        *self == *other
    }
}

/// The account that stands for "nobody": its address is all zero.
pub open spec fn null_account() -> AccountHash {
    AccountHash(vstd::array::spec_array_fill_for_copy_type::<u8, 32>(0u8))
}

impl Key {
    /// The party that stands for "nobody".
    pub open spec fn spec_null() -> Key {
        Key::Account(null_account())
    }

    /// The party that stands for "nobody".
    pub fn null() -> (nobody: Key)
        ensures
            nobody == Key::spec_null(),
    {
        Key::Account(AccountHash([0u8; 32]))
    }
}

/// What can stand for a party.
pub trait ToKey {
    /// The party that `self` stands for.
    spec fn spec_to_key(&self) -> Key;

    /// The party that `self` stands for.
    fn to_key(&self) -> (key: Key)
        ensures
            key == self.spec_to_key(),
    ;
}

impl ToKey for AccountHash {
    open spec fn spec_to_key(&self) -> Key {
        Key::Account(*self)
    }

    fn to_key(&self) -> (key: Key) {
        Key::Account(*self)
    }
}

impl ToKey for ContractHash {
    open spec fn spec_to_key(&self) -> Key {
        Key::Hash(self.0)
    }

    fn to_key(&self) -> (key: Key) {
        Key::Hash(self.value())
    }
}

impl ToKey for ContractPackageHash {
    open spec fn spec_to_key(&self) -> Key {
        Key::Hash(self.0)
    }

    fn to_key(&self) -> (key: Key) {
        Key::Hash(self.value())
    }
}

/// Whether the caller is the owner.
pub fn check_ownership(caller: &Key, owner: &Key) -> (is_owner: bool)
    ensures
        is_owner == (*caller == *owner),
{
    if caller != owner {
        return false;
    }
    true
}

/// One frame of the call stack: who made a call.
#[derive(Clone, Copy, Debug)]
pub enum CallStackElement {
    /// Code that an account runs directly.
    Session { account_hash: AccountHash },
    /// Stored code that runs as the account that called it.
    StoredSession {
        account_hash: AccountHash,
        contract_package_hash: ContractPackageHash,
        contract_hash: ContractHash,
    },
    /// A stored contract that runs as itself.
    StoredContract { contract_package_hash: ContractPackageHash, contract_hash: ContractHash },
}

/// The party that a frame of the call stack stands for: the account for
/// both kinds of session, the package for a stored contract.
pub open spec fn spec_element_to_key(element: CallStackElement) -> Key {
    match element {
        CallStackElement::Session { account_hash } => Key::Account(account_hash),
        CallStackElement::StoredSession { account_hash, .. } => Key::Account(account_hash),
        CallStackElement::StoredContract { contract_package_hash, .. } => Key::Hash(
            contract_package_hash.0,
        ),
    }
}

/// The caller that a call stack names: the frame directly below the top,
/// which is the escrow itself. A stack of fewer than two frames names none.
pub open spec fn spec_caller_key(call_stack: Seq<CallStackElement>) -> Result<Key, Error> {
    if call_stack.len() >= 2 {
        Ok(spec_element_to_key(call_stack[call_stack.len() - 2]))
    } else {
        Err(Error::InvalidContext)
    }
}

/// The party that a frame of the call stack stands for.
pub fn element_to_key(element: &CallStackElement) -> (key: Key)
    ensures
        key == spec_element_to_key(*element),
{
    match element {
        CallStackElement::Session { account_hash } => account_hash.to_key(),
        CallStackElement::StoredSession {
            account_hash,
            contract_package_hash: _,
            contract_hash: _,
        } => account_hash.to_key(),
        CallStackElement::StoredContract { contract_package_hash, contract_hash: _ } => {
            contract_package_hash.to_key()
        },
    }
}

/// The party that called the escrow, read off the call stack, whose last
/// frame is the escrow itself. The party is the one that called, not a relay
/// further down the stack.
pub fn get_caller_key(call_stack: &Vec<CallStackElement>) -> (caller: Result<Key, Error>)
    ensures
        caller == spec_caller_key(call_stack@),
{
    if call_stack.len() < 2 {
        return Err(Error::InvalidContext);
    }
    Ok(element_to_key(&call_stack[call_stack.len() - 2]))
}

/// What the holder of a reference may do with what it points to.
#[derive(Clone, Copy, Debug, PartialEq, Eq, Structural)]
pub struct AccessRights {
    /// The value may be read.
    pub read: bool,
    /// The value may be overwritten; for a purse, money may be taken out.
    pub write: bool,
    /// The value may be added to; for a purse, money may be paid in.
    pub add: bool,
}

impl AccessRights {
    /// The right to read and to add, and no other.
    pub open spec fn spec_read_add() -> AccessRights {
        AccessRights { read: true, write: false, add: true }
    }

    /// The right to read and to add, and no other.
    pub fn read_add() -> (rights: AccessRights)
        ensures
            rights == AccessRights::spec_read_add(),
    {
        AccessRights { read: true, write: false, add: true }
    }
}

/// A reference to a value on the ledger, here a purse, together with what
/// its holder may do with it.
#[derive(Clone, Copy, Debug)]
pub struct URef(pub [u8; 32], pub AccessRights);

impl URef {
    pub fn new(address: [u8; 32], access_rights: AccessRights) -> (uref: URef)
        ensures
            uref == URef(address, access_rights),
    {
        URef(address, access_rights)
    }

    pub fn addr(&self) -> (address: [u8; 32])
        ensures
            address == self.0,
    {
        self.0
    }

    pub fn access_rights(&self) -> (rights: AccessRights)
        ensures
            rights == self.1,
    {
        self.1
    }

    /// The same reference with the right to read and to add, and no other.
    pub fn into_read_add(self) -> (uref: URef)
        ensures
            uref == URef(self.0, AccessRights::spec_read_add()),
    {
        URef(self.0, AccessRights::read_add())
    }
}

impl PartialEq for URef {
    fn eq(&self, other: &URef) -> (same: bool) {
        same_address(&self.0, &other.0) && self.1 == other.1
    }
}

impl Eq for URef {

}

impl PartialEqSpecImpl for URef {
    open spec fn obeys_eq_spec() -> bool {
        true
    }

    open spec fn eq_spec(&self, other: &URef) -> bool {
        *self == *other
    }
}

} // verus!
