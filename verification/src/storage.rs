//! The record as the ledger keeps it: each field in a slot of its own. Here
//! is what a read of a slot can come to, the error that stands for each way
//! in which it can fail, and the way from the slots to the record and back.
//! The reading and writing itself is not done here.

use crate::asset::{spec_asset_kind, tag_names_its_kind, AssetKind};
use crate::error::Error;
use crate::identity::{ContractHash, ContractPackageHash, Key, URef};
use crate::record::{record_view, EscrowRecord, EscrowState};
use crate::uint::{TokenId, U512};
use vstd::prelude::*;

verus! {

/// What a read of a slot came to.
#[derive(Debug, PartialEq, Eq)]
pub enum SlotRead<T> {
    /// There is no slot under the name, or what is there is no slot.
    Missing,
    /// The slot is there, and what it holds cannot be read as a value of the
    /// type that was asked for.
    Failed,
    /// The slot is there and holds nothing.
    Empty,
    /// The slot holds a value.
    Value(T),
}

/// The value that a read came to, or the one of three errors that stands
/// for the way in which the read failed.
pub open spec fn spec_read<T>(read: SlotRead<T>, missing: Error, failed: Error, empty: Error)
    -> Result<T, Error> {
    match read {
        SlotRead::Value(value) => Ok(value),
        SlotRead::Empty => Err(empty),
        SlotRead::Failed => Err(failed),
        SlotRead::Missing => Err(missing),
    }
}

/// The value of a slot, or the error that tells a slot that is missing from
/// one that cannot be read and from one that is empty.
pub fn get_key_val<T>(read: SlotRead<T>) -> (value: Result<T, Error>)
    ensures
        value == spec_read(read, Error::MissingKey, Error::StorageError, Error::MissingValue),
{
    match read {
        SlotRead::Value(value) => Ok(value),
        SlotRead::Empty => Err(Error::MissingValue),
        SlotRead::Failed => Err(Error::StorageError),
        SlotRead::Missing => Err(Error::MissingKey),
    }
}

/// The start time, from a read of its slot.
pub fn _get_start_time(read: SlotRead<u64>) -> (start_time: Result<u64, Error>)
    ensures
        start_time == spec_read(
            read,
            Error::KeyNotFound,
            Error::StartTimeNotSet,
            Error::StartTimeReadError,
        ),
{
    match read {
        SlotRead::Value(start_time) => Ok(start_time),
        SlotRead::Empty => Err(Error::StartTimeReadError),
        SlotRead::Failed => Err(Error::StartTimeNotSet),
        SlotRead::Missing => Err(Error::KeyNotFound),
    }
}

/// The end time, from a read of its slot.
pub fn get_end_time(read: SlotRead<u64>) -> (end_time: Result<u64, Error>)
    ensures
        end_time == spec_read(
            read,
            Error::KeyNotFound,
            Error::EndTimeNotSet,
            Error::EndTimeReadError,
        ),
{
    match read {
        SlotRead::Value(end_time) => Ok(end_time),
        SlotRead::Empty => Err(Error::EndTimeReadError),
        SlotRead::Failed => Err(Error::EndTimeNotSet),
        SlotRead::Missing => Err(Error::KeyNotFound),
    }
}

/// The owner, from a read of its slot.
pub fn get_owner(read: SlotRead<Key>) -> (owner: Result<Key, Error>)
    ensures
        owner == spec_read(read, Error::KeyNotFound, Error::OwnerNotSet, Error::OwnerReadError),
{
    match read {
        SlotRead::Value(owner) => Ok(owner),
        SlotRead::Empty => Err(Error::OwnerReadError),
        SlotRead::Failed => Err(Error::OwnerNotSet),
        SlotRead::Missing => Err(Error::KeyNotFound),
    }
}

/// The escrow's purse, from a read of its slot.
pub fn get_contracts_purse(read: SlotRead<URef>) -> (purse: Result<URef, Error>)
    ensures
        purse == spec_read(read, Error::KeyNotFound, Error::PurseNotSet, Error::PurseReadError),
{
    match read {
        SlotRead::Value(purse) => Ok(purse),
        SlotRead::Empty => Err(Error::PurseReadError),
        SlotRead::Failed => Err(Error::PurseNotSet),
        SlotRead::Missing => Err(Error::KeyNotFound),
    }
}

/// The escrow's own contract address, from a read of its slot.
pub fn _get_contract_hash(read: SlotRead<ContractHash>) -> (contract: Result<ContractHash, Error>)
    ensures
        contract == spec_read(
            read,
            Error::MissingKey,
            Error::StorageError,
            Error::MissingValue,
        ),
{
    get_key_val(read)
}

/// The escrow's own package, from a read of its slot.
pub fn get_contract_package_hash(read: SlotRead<ContractPackageHash>) -> (package: Result<
    ContractPackageHash,
    Error,
>)
    ensures
        package == spec_read(
            read,
            Error::MissingKey,
            Error::StorageError,
            Error::MissingValue,
        ),
{
    get_key_val(read)
}

/// The kind of asset that is stored as a tag and a registry. A tag that
/// names no kind is an error of its own, so that a stored tag that went bad
/// is told from a tag that was refused at installation.
pub open spec fn spec_asset_kind_read(
    tag: SlotRead<String>,
    registry: SlotRead<Option<ContractHash>>,
) -> Result<AssetKind, Error> {
    match spec_read(tag, Error::MissingKey, Error::StorageError, Error::MissingValue) {
        Err(error) => Err(error),
        Ok(tag) => match spec_read(
            registry,
            Error::MissingKey,
            Error::StorageError,
            Error::MissingValue,
        ) {
            Err(error) => Err(error),
            Ok(registry) => match spec_asset_kind(tag@, registry) {
                Ok(kind) => Ok(kind),
                Err(Error::TypeNotSupported) => Err(Error::TypeNotFound),
                Err(error) => Err(error),
            },
        },
    }
}

/// The kind of asset of the escrow, from the reads of its tag and of its
/// registry.
pub fn get_asset_kind(tag: SlotRead<String>, registry: SlotRead<Option<ContractHash>>) -> (kind:
    Result<AssetKind, Error>)
    ensures
        kind == spec_asset_kind_read(tag, registry),
{
    let tag = match get_key_val(tag) {
        Ok(tag) => tag,
        Err(error) => {
            return Err(error);
        },
    };
    let registry = match get_key_val(registry) {
        Ok(registry) => registry,
        Err(error) => {
            return Err(error);
        },
    };
    match AssetKind::from_tag(tag.as_str(), registry) {
        Ok(kind) => Ok(kind),
        Err(Error::TypeNotSupported) => Err(Error::TypeNotFound),
        Err(error) => Err(error),
    }
}

/// The slots of an escrow, each as a read of it came out.
#[derive(Debug, PartialEq, Eq)]
pub struct Slots {
    pub hash: SlotRead<String>,
    pub hash_type: SlotRead<String>,
    /// Kept empty: the secret itself is never stored.
    pub secret: SlotRead<String>,
    /// The tag of the asset kind.
    pub type_: SlotRead<String>,
    pub owner: SlotRead<Key>,
    pub reciver: SlotRead<Key>,
    /// The registry of the asset kind, if it has one.
    pub contract_hash: SlotRead<Option<ContractHash>>,
    pub amount: SlotRead<U512>,
    pub start_time: SlotRead<u64>,
    pub end_time: SlotRead<u64>,
    pub purse: SlotRead<URef>,
    pub token_ids: SlotRead<Vec<TokenId>>,
    pub own_contract_package_hash: SlotRead<ContractPackageHash>,
    pub own_contract_hash: SlotRead<ContractHash>,
}

impl Slots {
    /// Whether the slots of a commitment are there and hold their empty
    /// values: no hash, no algorithm, no secret, no amount, no tokens, and
    /// both times at zero.
    pub open spec fn commitment_is_empty(self) -> bool {
        &&& self.hash matches SlotRead::Value(hash) && hash@.len() == 0
        &&& self.hash_type matches SlotRead::Value(hash_type) && hash_type@.len() == 0
        &&& self.secret matches SlotRead::Value(secret) && secret@.len() == 0
        &&& self.amount matches SlotRead::Value(amount) && amount@ == 0
        &&& self.token_ids matches SlotRead::Value(token_ids) && token_ids@.len() == 0
        &&& self.start_time == SlotRead::Value(0u64)
        &&& self.end_time == SlotRead::Value(0u64)
    }

    /// Whether the slots are those that stand before an installation: the
    /// slots of a commitment at their empty values, no registry, and none of
    /// the slots that the installation itself writes.
    pub open spec fn are_fresh(self) -> bool {
        &&& self.commitment_is_empty()
        &&& self.contract_hash == SlotRead::Value(None::<ContractHash>)
        &&& self.type_ is Missing
        &&& self.owner is Missing
        &&& self.reciver is Missing
        &&& self.purse is Missing
        &&& self.own_contract_package_hash is Missing
        &&& self.own_contract_hash is Missing
    }

    /// Whether every slot holds a value, and the values are those of the
    /// record `state`, with the kind as its tag and its registry.
    pub open spec fn hold(self, state: EscrowState) -> bool {
        &&& self.hash matches SlotRead::Value(hash) && hash@ == state.hash
        &&& self.hash_type matches SlotRead::Value(hash_type) && hash_type@ == state.hash_type
        &&& self.secret matches SlotRead::Value(secret) && secret@.len() == 0
        &&& self.type_ matches SlotRead::Value(tag) && tag@ == state.kind.spec_tag()
        &&& self.owner == SlotRead::Value(state.owner)
        &&& self.reciver == SlotRead::Value(state.receiver)
        &&& self.contract_hash == SlotRead::Value(state.kind.spec_registry())
        &&& self.amount matches SlotRead::Value(amount) && amount@ == state.amount
        &&& self.start_time == SlotRead::Value(state.start_time)
        &&& self.end_time == SlotRead::Value(state.end_time)
        &&& self.purse == SlotRead::Value(state.purse)
        &&& self.token_ids matches SlotRead::Value(token_ids) && token_ids@ == state.token_ids
        &&& self.own_contract_package_hash == SlotRead::Value(state.own_contract_package_hash)
        &&& self.own_contract_hash == SlotRead::Value(state.own_contract_hash)
    }
}

/// The record that the slots hold, or the error of the first read that
/// failed. The reads are looked at in this order: the owner, the kind, the
/// hash, its algorithm, the receiver, the amount, the tokens, the two times,
/// the purse, the escrow's own two addresses.
pub open spec fn spec_load(slots: Slots) -> Result<EscrowState, Error> {
    let owner = spec_read(slots.owner, Error::KeyNotFound, Error::OwnerNotSet, Error::OwnerReadError);
    let kind = spec_asset_kind_read(slots.type_, slots.contract_hash);
    let hash = spec_read(slots.hash, Error::MissingKey, Error::StorageError, Error::MissingValue);
    let hash_type = spec_read(
        slots.hash_type,
        Error::MissingKey,
        Error::StorageError,
        Error::MissingValue,
    );
    let receiver = spec_read(
        slots.reciver,
        Error::MissingKey,
        Error::StorageError,
        Error::MissingValue,
    );
    let amount = spec_read(slots.amount, Error::MissingKey, Error::StorageError, Error::MissingValue);
    let token_ids = spec_read(
        slots.token_ids,
        Error::MissingKey,
        Error::StorageError,
        Error::MissingValue,
    );
    let start_time = spec_read(
        slots.start_time,
        Error::KeyNotFound,
        Error::StartTimeNotSet,
        Error::StartTimeReadError,
    );
    let end_time = spec_read(
        slots.end_time,
        Error::KeyNotFound,
        Error::EndTimeNotSet,
        Error::EndTimeReadError,
    );
    let purse = spec_read(slots.purse, Error::KeyNotFound, Error::PurseNotSet, Error::PurseReadError);
    let package = spec_read(
        slots.own_contract_package_hash,
        Error::MissingKey,
        Error::StorageError,
        Error::MissingValue,
    );
    let contract = spec_read(
        slots.own_contract_hash,
        Error::MissingKey,
        Error::StorageError,
        Error::MissingValue,
    );
    if let Err(error) = owner {
        Err(error)
    } else if let Err(error) = kind {
        Err(error)
    } else if let Err(error) = hash {
        Err(error)
    } else if let Err(error) = hash_type {
        Err(error)
    } else if let Err(error) = receiver {
        Err(error)
    } else if let Err(error) = amount {
        Err(error)
    } else if let Err(error) = token_ids {
        Err(error)
    } else if let Err(error) = start_time {
        Err(error)
    } else if let Err(error) = end_time {
        Err(error)
    } else if let Err(error) = purse {
        Err(error)
    } else if let Err(error) = package {
        Err(error)
    } else if let Err(error) = contract {
        Err(error)
    } else {
        Ok(
            EscrowState {
                hash: hash->Ok_0@,
                hash_type: hash_type->Ok_0@,
                owner: owner->Ok_0,
                receiver: receiver->Ok_0,
                kind: kind->Ok_0,
                amount: amount->Ok_0@,
                token_ids: token_ids->Ok_0@,
                start_time: start_time->Ok_0,
                end_time: end_time->Ok_0,
                purse: purse->Ok_0,
                own_contract_package_hash: package->Ok_0,
                own_contract_hash: contract->Ok_0,
            },
        )
    }
}

/// The slots as they stand before an installation: those of a commitment,
/// each at its empty value.
pub fn get_named_keys() -> (named_keys: Slots)
    ensures
        named_keys.are_fresh(),
{
    Slots {
        hash: SlotRead::Value(String::new()),
        hash_type: SlotRead::Value(String::new()),
        secret: SlotRead::Value(String::new()),
        type_: SlotRead::Missing,
        owner: SlotRead::Missing,
        reciver: SlotRead::Missing,
        contract_hash: SlotRead::Value(None),
        amount: SlotRead::Value(U512::zero()),
        start_time: SlotRead::Value(0),
        end_time: SlotRead::Value(0),
        purse: SlotRead::Missing,
        token_ids: SlotRead::Value(Vec::new()),
        own_contract_package_hash: SlotRead::Missing,
        own_contract_hash: SlotRead::Missing,
    }
}

/// Puts the record together from the reads of its slots. A read that failed
/// fails the load, with the error of the first such read.
pub fn load(slots: Slots) -> (loaded: Result<EscrowRecord, Error>)
    ensures
        record_view(loaded) == spec_load(slots),
{
    let owner = get_owner(slots.owner)?;
    let kind = get_asset_kind(slots.type_, slots.contract_hash)?;
    let hash = get_key_val(slots.hash)?;
    let hash_type = get_key_val(slots.hash_type)?;
    let receiver = get_key_val(slots.reciver)?;
    let amount = get_key_val(slots.amount)?;
    let token_ids = get_key_val(slots.token_ids)?;
    let start_time = _get_start_time(slots.start_time)?;
    let end_time = get_end_time(slots.end_time)?;
    let purse = get_contracts_purse(slots.purse)?;
    let own_contract_package_hash = get_contract_package_hash(slots.own_contract_package_hash)?;
    let own_contract_hash = _get_contract_hash(slots.own_contract_hash)?;
    Ok(
        EscrowRecord {
            hash,
            hash_type,
            owner,
            receiver,
            kind,
            amount,
            token_ids,
            start_time,
            end_time,
            purse,
            own_contract_package_hash,
            own_contract_hash,
        },
    )
}

/// The slots that hold the record: every field in its slot, the kind as
/// its tag and its registry, and the slot of the secret empty.
pub fn stored(record: &EscrowRecord) -> (slots: Slots)
    ensures
        slots.hold(record@),
{
    Slots {
        hash: SlotRead::Value(record.hash.clone()),
        hash_type: SlotRead::Value(record.hash_type.clone()),
        secret: SlotRead::Value(String::new()),
        type_: SlotRead::Value(record.kind.tag().to_owned()),
        owner: SlotRead::Value(record.owner),
        reciver: SlotRead::Value(record.receiver),
        contract_hash: SlotRead::Value(record.kind.registry()),
        amount: SlotRead::Value(record.amount),
        start_time: SlotRead::Value(record.start_time),
        end_time: SlotRead::Value(record.end_time),
        purse: SlotRead::Value(record.purse),
        token_ids: SlotRead::Value(record.token_ids.clone()),
        own_contract_package_hash: SlotRead::Value(record.own_contract_package_hash),
        own_contract_hash: SlotRead::Value(record.own_contract_hash),
    }
}

/// Round trip. Slots that hold a record load as that record.
pub proof fn what_was_stored_is_loaded(slots: Slots, state: EscrowState)
    requires
        slots.hold(state),
    ensures
        spec_load(slots) == Ok::<EscrowState, Error>(state),
{
    tag_names_its_kind(state.kind);
}

/// Clearing is whole. Slots that hold a record without a commitment, as a
/// claim or a refund leaves it, hold the empty values that stood before the
/// installation in every slot of the commitment, all at once.
pub proof fn cleared_slots_are_empty(slots: Slots, state: EscrowState)
    requires
        slots.hold(state.cleared()),
    ensures
        slots.commitment_is_empty(),
        slots.reciver == SlotRead::Value(Key::spec_null()),
{
}

} // verus!
