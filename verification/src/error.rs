//! The reasons for which an operation of the escrow is refused.

use vstd::prelude::*;

verus! {

/// Why a call was refused. Every refusal leaves the record as it was.
#[derive(Clone, Copy, Debug, PartialEq, Eq, Structural)]
pub enum Error {
    /// The start time cannot be read as a time.
    StartTimeNotSet,
    /// The slot of the start time holds nothing.
    StartTimeReadError,
    /// The end time cannot be read as a time.
    EndTimeNotSet,
    /// The slot of the end time holds nothing.
    EndTimeReadError,
    /// No commitment is active, or the commitment offered is empty.
    HashNotSet,
    /// The slot of the commitment holds nothing.
    HashReadError,
    /// The caller is not the party that may make this call.
    AccessDenied,
    /// The asset kind is unknown, or the deposit is of another kind.
    TypeNotSupported,
    /// A token kind was chosen without naming its registry.
    ContractHashNotSet,
    /// The slot of the registry holds nothing.
    ContractHashReadError,
    /// Custody holds less than the commitment needs.
    NotEnoughBalance,
    /// The purse has no balance, or it cannot be read as a purse.
    PurseNotSet,
    /// The slot of the purse holds nothing.
    PurseReadError,
    /// There is no slot under the name.
    KeyNotFound,
    /// A refund was asked for before the deadline had passed.
    EndTimeNotReached,
    /// A claim was made after the deadline.
    EndTimePassed,
    /// The hash algorithm is not one of the accepted ones.
    HashTypeNotSupported,
    /// A slot holds nothing.
    MissingValue,
    /// There is no slot under the name.
    MissingKey,
    /// The secret does not hash to the commitment.
    HashMismatch,
    /// The stored tag names no asset kind.
    TypeNotFound,
    /// A stored key stands for no party.
    UnexpectedKeyVariant,
    /// What a slot holds cannot be read as a value of its type.
    StorageError,
    /// The call stack does not name a caller.
    InvalidContext,
    /// A commitment is active already, or the instance exists already.
    ContractAlreadyInitialized,
    /// A token of the set is not held by the escrow.
    NFTsNotOwnedByContract,
    /// Native currency can only be paid out to an account.
    ReciverNotAnAccount,
    /// The owner cannot be read as a party.
    OwnerNotSet,
    /// The slot of the owner holds nothing.
    OwnerReadError,
    /// The ledger did not carry the payment out.
    NativeTransferFailed,
    /// An argument of the call cannot be used: an amount of zero, or a window
    /// that is empty or ends beyond the last block time.
    RuntimeArgFailed,
}

impl Error {
    /// The number under which the ledger reports this error.
    pub open spec fn spec_code(self) -> u16 {
        match self {
            Error::StartTimeNotSet => 0,
            Error::StartTimeReadError => 1,
            Error::EndTimeNotSet => 2,
            Error::EndTimeReadError => 3,
            Error::HashNotSet => 4,
            Error::HashReadError => 5,
            Error::AccessDenied => 6,
            Error::TypeNotSupported => 7,
            Error::ContractHashNotSet => 8,
            Error::ContractHashReadError => 9,
            Error::NotEnoughBalance => 10,
            Error::PurseNotSet => 11,
            Error::PurseReadError => 12,
            Error::KeyNotFound => 13,
            Error::EndTimeNotReached => 14,
            Error::EndTimePassed => 15,
            Error::HashTypeNotSupported => 16,
            Error::MissingValue => 17,
            Error::MissingKey => 18,
            Error::HashMismatch => 19,
            Error::TypeNotFound => 20,
            Error::UnexpectedKeyVariant => 21,
            Error::StorageError => 22,
            Error::InvalidContext => 23,
            Error::ContractAlreadyInitialized => 24,
            Error::NFTsNotOwnedByContract => 25,
            Error::ReciverNotAnAccount => 26,
            Error::OwnerNotSet => 27,
            Error::OwnerReadError => 28,
            Error::NativeTransferFailed => 29,
            Error::RuntimeArgFailed => 30,
        }
    }

    /// The number under which the ledger reports this error.
    pub fn code(&self) -> (code: u16)
        ensures
            code == self.spec_code(),
    {
        match self {
            Error::StartTimeNotSet => 0,
            Error::StartTimeReadError => 1,
            Error::EndTimeNotSet => 2,
            Error::EndTimeReadError => 3,
            Error::HashNotSet => 4,
            Error::HashReadError => 5,
            Error::AccessDenied => 6,
            Error::TypeNotSupported => 7,
            Error::ContractHashNotSet => 8,
            Error::ContractHashReadError => 9,
            Error::NotEnoughBalance => 10,
            Error::PurseNotSet => 11,
            Error::PurseReadError => 12,
            Error::KeyNotFound => 13,
            Error::EndTimeNotReached => 14,
            Error::EndTimePassed => 15,
            Error::HashTypeNotSupported => 16,
            Error::MissingValue => 17,
            Error::MissingKey => 18,
            Error::HashMismatch => 19,
            Error::TypeNotFound => 20,
            Error::UnexpectedKeyVariant => 21,
            Error::StorageError => 22,
            Error::InvalidContext => 23,
            Error::ContractAlreadyInitialized => 24,
            Error::NFTsNotOwnedByContract => 25,
            Error::ReciverNotAnAccount => 26,
            Error::OwnerNotSet => 27,
            Error::OwnerReadError => 28,
            Error::NativeTransferFailed => 29,
            Error::RuntimeArgFailed => 30,
        }
    }
}

/// No two errors are reported under the same number.
pub proof fn codes_are_distinct(a: Error, b: Error)
    ensures
        a.spec_code() == b.spec_code() <==> a == b,
{
}

} // verus!
