//! The record of one escrow: what is stored between calls.

use crate::asset::AssetKind;
use crate::error::Error;
use crate::hashing::spec_check_hash_type;
use crate::identity::{ContractHash, ContractPackageHash, Key, URef};
use crate::uint::{pow2_256, TokenId, U512};
use vstd::prelude::*;

verus! {

/// The stored record of an escrow. `owner`, `kind`, `purse` and the escrow's
/// own two addresses are written at installation and stay. The other fields
/// belong to one commitment: setup fills them, and a claim or a refund
/// empties them again.
#[derive(Debug, PartialEq, Eq)]
pub struct EscrowRecord {
    /// The commitment: the hash of the secret. Empty while none is active.
    pub hash: String,
    /// The name of the algorithm that the commitment was made with.
    pub hash_type: String,
    /// Who set the escrow up and takes the asset back after the deadline.
    pub owner: Key,
    /// Who gets the asset when the secret is presented.
    pub receiver: Key,
    /// The kind of asset that this instance holds.
    pub kind: AssetKind,
    /// The locked amount, for native currency and fungible tokens.
    pub amount: U512,
    /// The locked tokens, for a set of non-fungible tokens.
    pub token_ids: Vec<TokenId>,
    /// The block time of the setup.
    pub start_time: u64,
    /// The deadline: the last block time at which a claim is accepted.
    pub end_time: u64,
    /// The purse that holds the escrow's native currency.
    pub purse: URef,
    /// The escrow's own package, under which it owns tokens.
    pub own_contract_package_hash: ContractPackageHash,
    /// The escrow's own contract address.
    pub own_contract_hash: ContractHash,
}

/// The record as mathematics.
pub struct EscrowState {
    pub hash: Seq<char>,
    pub hash_type: Seq<char>,
    pub owner: Key,
    pub receiver: Key,
    pub kind: AssetKind,
    pub amount: nat,
    pub token_ids: Seq<TokenId>,
    pub start_time: u64,
    pub end_time: u64,
    pub purse: URef,
    pub own_contract_package_hash: ContractPackageHash,
    pub own_contract_hash: ContractHash,
}

impl View for EscrowRecord {
    type V = EscrowState;

    open spec fn view(&self) -> EscrowState {
        EscrowState {
            hash: self.hash@,
            hash_type: self.hash_type@,
            owner: self.owner,
            receiver: self.receiver,
            kind: self.kind,
            amount: self.amount@,
            token_ids: self.token_ids@,
            start_time: self.start_time,
            end_time: self.end_time,
            purse: self.purse,
            own_contract_package_hash: self.own_contract_package_hash,
            own_contract_hash: self.own_contract_hash,
        }
    }
}

impl Clone for EscrowRecord {
    fn clone(&self) -> (copy: EscrowRecord)
        ensures
            copy@ == self@,
    {
        EscrowRecord {
            hash: self.hash.clone(),
            hash_type: self.hash_type.clone(),
            owner: self.owner,
            receiver: self.receiver,
            kind: self.kind,
            amount: self.amount,
            token_ids: self.token_ids.clone(),
            start_time: self.start_time,
            end_time: self.end_time,
            purse: self.purse,
            own_contract_package_hash: self.own_contract_package_hash,
            own_contract_hash: self.own_contract_hash,
        }
    }
}

impl EscrowState {
    /// The record right after installation: no commitment, and every field
    /// of a commitment at its empty value.
    pub open spec fn installed(
        owner: Key,
        kind: AssetKind,
        purse: URef,
        own_contract_package_hash: ContractPackageHash,
        own_contract_hash: ContractHash,
    ) -> EscrowState {
        EscrowState {
            hash: Seq::empty(),
            hash_type: Seq::empty(),
            owner,
            receiver: Key::spec_null(),
            kind,
            amount: 0,
            token_ids: Seq::empty(),
            start_time: 0,
            end_time: 0,
            purse,
            own_contract_package_hash,
            own_contract_hash,
        }
    }

    /// Whether a commitment is active: the stored hash is not empty.
    pub open spec fn is_active(self) -> bool {
        self.hash.len() > 0
    }

    /// The record with the commitment taken out: what was written at
    /// installation stays, every other field is back at its empty value.
    pub open spec fn cleared(self) -> EscrowState {
        EscrowState::installed(
            self.owner,
            self.kind,
            self.purse,
            self.own_contract_package_hash,
            self.own_contract_hash,
        )
    }

    /// What holds of every record that the escrow's operations have made.
    pub open spec fn well_formed(self) -> bool {
        &&& !self.is_active() ==> self == self.cleared()
        &&& self.is_active() ==> spec_check_hash_type(self.hash_type)
        &&& self.is_active() ==> self.start_time < self.end_time
        &&& self.kind is Native || self.kind is FungibleToken ==> self.token_ids.len() == 0
            && (self.is_active() ==> self.amount > 0)
        &&& self.kind is FungibleToken ==> self.amount < pow2_256()
        &&& self.kind is NonFungibleTokenSet ==> self.amount == 0
        &&& self.kind is Custom ==> self.amount == 0 && self.token_ids.len() == 0
    }
}

/// A record or the reason why there is none, as mathematics.
pub open spec fn record_view(outcome: Result<EscrowRecord, Error>) -> Result<EscrowState, Error> {
    match outcome {
        Ok(record) => Ok(record@),
        Err(error) => Err(error),
    }
}

/// Whether a commitment is active, so that the record cannot be set up.
pub fn already_initialized(record: &EscrowRecord) -> (active: bool)
    ensures
        active == record@.is_active(),
{
    if record.hash.as_str().is_empty() {
        return false;
    }
    true
}

/// The commitment that is stored now; the empty string if there is none.
pub fn get_hash(record: &EscrowRecord) -> (hash: String)
    ensures
        hash@ == record@.hash,
{
    record.hash.clone()
}

/// Writes the block time of the setup.
pub fn set_start_time(record: &mut EscrowRecord, start_time: u64)
    ensures
        *final(record) == (EscrowRecord { start_time, ..*old(record) }),
{
    record.start_time = start_time;
}

/// Writes the deadline.
pub fn set_end_time(record: &mut EscrowRecord, end_time: u64)
    ensures
        *final(record) == (EscrowRecord { end_time, ..*old(record) }),
{
    record.end_time = end_time;
}

/// Takes the commitment out of the record: every field of it goes back to
/// its empty value, all at once. What was written at installation stays.
pub fn clear_all(record: &mut EscrowRecord)
    ensures
        final(record)@ == old(record)@.cleared(),
{
    record.hash = String::new();
    record.hash_type = String::new();
    record.start_time = 0;
    record.end_time = 0;
    record.amount = U512::zero();
    record.receiver = Key::null();
    record.token_ids = Vec::new();
}

} // verus!
