//! The escrow: installation, setup, claim and refund.
//!
//! An instance is installed once, without a commitment. Its owner sets a
//! commitment up; from then on exactly one of two things ends it. Whoever is
//! not the owner and presents the secret up to the deadline has the asset
//! paid to the receiver. After the deadline the owner has it paid back. Either
//! way the commitment is taken out of the record, which can then be set up
//! anew.

use crate::asset::{
    deposit_is_in_range, outcome_view, spec_asset_kind, AssetKind, Deposit, DepositView, Transfer,
    TransferView,
};
use crate::error::Error;
use crate::fungible;
use crate::hashing::{check_hash_type, generate_hash, spec_check_hash_type, spec_generate_hash};
use crate::identity::{
    check_ownership, AccessRights, ContractHash, ContractPackageHash, Key, URef,
};
use crate::native;
use crate::nft;
use crate::record::{
    already_initialized, clear_all, record_view, set_end_time, set_start_time, EscrowRecord,
    EscrowState,
};
use crate::timing::{is_timed_out, spec_is_timed_out};
use crate::transfers::{spec_release, spec_transfer_to, transfer_back, transfer_to};
use crate::uint::U512;
use vstd::prelude::*;

verus! {

/// Whether a deposit can be locked by an escrow of the given kind, whose
/// package is `package`. The deposit has to be of the escrow's kind, and to
/// pass the check of that kind. The custom kind checks nothing.
pub open spec fn spec_lock_precheck(
    kind: AssetKind,
    deposit: DepositView,
    package: ContractPackageHash,
) -> Result<(), Error> {
    match (kind, deposit) {
        (AssetKind::Native, DepositView::Native { amount, purse_balance }) => {
            native::spec_lock_precheck(amount, purse_balance)
        },
        (
            AssetKind::FungibleToken { .. },
            DepositView::FungibleToken { amount, custody_balance },
        ) => fungible::spec_lock_precheck(amount, custody_balance),
        (
            AssetKind::NonFungibleTokenSet { .. },
            DepositView::NonFungibleTokenSet { token_ids, owners },
        ) => if nft::spec_check_nfts_ownership(token_ids, owners, package) {
            Ok(())
        } else {
            Err(Error::NFTsNotOwnedByContract)
        },
        (AssetKind::Custom, DepositView::Custom) => Ok(()),
        _ => Err(Error::TypeNotSupported),
    }
}

/// The outcome of an installation: the new record, or the reason why there
/// is none. An instance that exists already is not installed again.
pub open spec fn spec_init(
    populated: bool,
    caller: Key,
    tag: Seq<char>,
    registry: Option<ContractHash>,
    purse: URef,
    own_contract_package_hash: ContractPackageHash,
    own_contract_hash: ContractHash,
) -> Result<EscrowState, Error> {
    if populated {
        Err(Error::ContractAlreadyInitialized)
    } else {
        match spec_asset_kind(tag, registry) {
            Ok(kind) => Ok(
                EscrowState::installed(
                    caller,
                    kind,
                    purse,
                    own_contract_package_hash,
                    own_contract_hash,
                ),
            ),
            Err(error) => Err(error),
        }
    }
}

impl EscrowState {
    /// Why a setup at the block time `now` is refused, if it is. The checks
    /// come in this order: the caller is the owner; no commitment is active;
    /// the algorithm is an accepted one; the commitment is not empty; the
    /// window is not empty and ends at a block time that exists; the deposit
    /// can be locked.
    pub open spec fn setup_refusal(
        self,
        caller: Key,
        now: u64,
        hash: Seq<char>,
        hash_type: Seq<char>,
        timeout: u64,
        deposit: DepositView,
    ) -> Option<Error> {
        if caller != self.owner {
            Some(Error::AccessDenied)
        } else if self.is_active() {
            Some(Error::ContractAlreadyInitialized)
        } else if !spec_check_hash_type(hash_type) {
            Some(Error::HashTypeNotSupported)
        } else if hash.len() == 0 {
            Some(Error::HashNotSet)
        } else if timeout == 0 || now + timeout > u64::MAX {
            Some(Error::RuntimeArgFailed)
        } else {
            match spec_lock_precheck(self.kind, deposit, self.own_contract_package_hash) {
                Err(error) => Some(error),
                Ok(_) => None,
            }
        }
    }

    /// The record after a setup at the block time `now`: the commitment and
    /// the receiver are stored, the window runs from `now` to `now +
    /// timeout`, and the deposit is what is locked. Nothing of an earlier
    /// commitment is left.
    pub open spec fn after_setup(
        self,
        now: u64,
        hash: Seq<char>,
        hash_type: Seq<char>,
        receiver: Key,
        timeout: u64,
        deposit: DepositView,
    ) -> EscrowState {
        EscrowState {
            hash,
            hash_type,
            receiver,
            start_time: now,
            end_time: (now + timeout) as u64,
            amount: deposit.amount(),
            token_ids: deposit.token_ids(),
            ..self
        }
    }

    /// What a claim at the block time `now` comes to, given the hash of the
    /// secret that was presented: the pay-out to the receiver, or the reason
    /// why there is none. The checks come in this order: the caller is not
    /// the owner; a commitment is active; the deadline has not passed; the
    /// hash is the commitment; the asset can be paid to the receiver.
    pub open spec fn claim_outcome(self, caller: Key, now: u64, secret_hash: Seq<char>) -> Result<
        TransferView,
        Error,
    > {
        if caller == self.owner {
            Err(Error::AccessDenied)
        } else if !self.is_active() {
            Err(Error::HashNotSet)
        } else if spec_is_timed_out(now, self.end_time) {
            Err(Error::EndTimePassed)
        } else {
            spec_transfer_to(self, secret_hash)
        }
    }

    /// What a refund at the block time `now` comes to: the pay-out to the
    /// owner, or the reason why there is none. The checks come in this
    /// order: the caller is the owner; a commitment is active; the deadline
    /// has passed; the asset can be paid to the owner.
    pub open spec fn refund_outcome(self, caller: Key, now: u64) -> Result<TransferView, Error> {
        if caller != self.owner {
            Err(Error::AccessDenied)
        } else if !self.is_active() {
            Err(Error::HashNotSet)
        } else if !spec_is_timed_out(now, self.end_time) {
            Err(Error::EndTimeNotReached)
        } else {
            spec_release(self, self.owner)
        }
    }
}

/// One call of the three that change the record of an escrow.
pub enum Call {
    Setup {
        caller: Key,
        now: u64,
        hash: Seq<char>,
        hash_type: Seq<char>,
        receiver: Key,
        timeout: u64,
        deposit: DepositView,
    },
    Claim { caller: Key, now: u64, secret_hash: Seq<char> },
    Refund { caller: Key, now: u64 },
}

impl Call {
    /// Whether the call pays the asset out when it goes through: a claim or
    /// a refund.
    pub open spec fn is_pay_out(self) -> bool {
        self is Claim || self is Refund
    }
}

/// Whether `call` goes through when the record is `state`.
pub open spec fn goes_through(state: EscrowState, call: Call) -> bool {
    match call {
        Call::Setup { caller, now, hash, hash_type, timeout, deposit, .. } => state.setup_refusal(
            caller,
            now,
            hash,
            hash_type,
            timeout,
            deposit,
        ) is None,
        Call::Claim { caller, now, secret_hash } => state.claim_outcome(caller, now, secret_hash)
            is Ok,
        Call::Refund { caller, now } => state.refund_outcome(caller, now) is Ok,
    }
}

/// The record after `call` was made on `state`. A setup that goes through
/// stores its commitment; a claim or a refund that goes through takes the
/// commitment out; a call that is refused changes nothing.
pub open spec fn step(state: EscrowState, call: Call) -> EscrowState {
    if !goes_through(state, call) {
        state
    } else {
        match call {
            Call::Setup { now, hash, hash_type, receiver, timeout, deposit, .. } => {
                state.after_setup(now, hash, hash_type, receiver, timeout, deposit)
            },
            _ => state.cleared(),
        }
    }
}

/// Checks that a deposit can be locked by an escrow of the given kind.
pub fn lock_precheck(kind: &AssetKind, deposit: &Deposit, package: &ContractPackageHash) -> (checked:
    Result<(), Error>)
    ensures
        checked == spec_lock_precheck(*kind, deposit@, *package),
{
    match (kind, deposit) {
        (AssetKind::NonFungibleTokenSet { .. }, Deposit::NonFungibleTokenSet { token_ids, owners }) => {
            // The tokens must be held by the escrow already.
            if !nft::check_nfts_ownership(token_ids, owners, package) {
                return Err(Error::NFTsNotOwnedByContract);
            }
            Ok(())
        },
        (AssetKind::FungibleToken { .. }, Deposit::FungibleToken { amount, custody_balance }) => {
            fungible::lock_precheck(amount, custody_balance)
        },
        (AssetKind::Native, Deposit::Native { amount, purse_balance }) => native::lock_precheck(
            amount,
            purse_balance,
        ),
        (AssetKind::Custom, Deposit::Custom) => Ok(()),
        _ => Err(Error::TypeNotSupported),
    }
}

/// Installs an escrow: the caller becomes its owner, the kind of asset is
/// fixed, and no commitment is active. `existing` is the record that is
/// stored already, if one is; then nothing is installed.
pub fn init(
    existing: Option<&EscrowRecord>,
    caller: &Key,
    type_: &str,
    registry: Option<ContractHash>,
    purse: &URef,
    own_contract_package_hash: &ContractPackageHash,
    own_contract_hash: &ContractHash,
) -> (outcome: Result<EscrowRecord, Error>)
    ensures
        record_view(outcome) == spec_init(
            existing is Some,
            *caller,
            type_@,
            registry,
            *purse,
            *own_contract_package_hash,
            *own_contract_hash,
        ),
        outcome matches Ok(record) ==> record@.well_formed(),
{
    if existing.is_some() {
        return Err(Error::ContractAlreadyInitialized);
    }
    let kind = match AssetKind::from_tag(type_, registry) {
        Ok(kind) => kind,
        Err(error) => {
            return Err(error);
        },
    };
    Ok(
        EscrowRecord {
            hash: String::new(),
            hash_type: String::new(),
            owner: *caller,
            receiver: Key::null(),
            kind,
            amount: U512::zero(),
            token_ids: Vec::new(),
            start_time: 0,
            end_time: 0,
            purse: *purse,
            own_contract_package_hash: *own_contract_package_hash,
            own_contract_hash: *own_contract_hash,
        },
    )
}

/// Sets a commitment up. Only the owner can, and only while none is active.
/// On success the record holds the commitment, with a window from
/// `current_time` to `current_time + timeout`. A refused setup leaves the
/// record as it was.
pub fn initiate(
    record: &mut EscrowRecord,
    caller: &Key,
    current_time: u64,
    hash: String,
    hash_type: String,
    receiver: Key,
    timeout: u64,
    deposit: Deposit,
) -> (outcome: Result<(), Error>)
    ensures
        match old(record)@.setup_refusal(
            *caller,
            current_time,
            hash@,
            hash_type@,
            timeout,
            deposit@,
        ) {
            Some(error) => outcome == Err::<(), Error>(error) && *final(record) == *old(record),
            None => outcome is Ok && final(record)@ == old(record)@.after_setup(
                current_time,
                hash@,
                hash_type@,
                receiver,
                timeout,
                deposit@,
            ),
        },
        final(record)@ == step(
            old(record)@,
            Call::Setup {
                caller: *caller,
                now: current_time,
                hash: hash@,
                hash_type: hash_type@,
                receiver,
                timeout,
                deposit: deposit@,
            },
        ),
        old(record)@.well_formed() ==> final(record)@.well_formed(),
{
    // only the owner can set the escrow up
    if !check_ownership(caller, &record.owner) {
        return Err(Error::AccessDenied);
    }
    // a commitment that is active is not overwritten
    if already_initialized(record) {
        return Err(Error::ContractAlreadyInitialized);
    }
    if !check_hash_type(hash_type.as_str()) {
        return Err(Error::HashTypeNotSupported);
    }
    if hash.as_str().is_empty() {
        return Err(Error::HashNotSet);
    }
    if timeout == 0 {
        return Err(Error::RuntimeArgFailed);
    }
    let end_time = match current_time.checked_add(timeout) {
        Some(end_time) => end_time,
        None => {
            return Err(Error::RuntimeArgFailed);
        },
    };
    match lock_precheck(&record.kind, &deposit, &record.own_contract_package_hash) {
        Err(error) => {
            return Err(error);
        },
        Ok(_) => {},
    }
    proof {
        deposit_is_in_range(deposit);
    }
    record.hash = hash;
    record.hash_type = hash_type;
    record.receiver = receiver;
    set_start_time(record, current_time);
    set_end_time(record, end_time);
    match deposit {
        Deposit::Native { amount, .. } => {
            record.amount = amount;
            record.token_ids = Vec::new();
        },
        Deposit::FungibleToken { amount, .. } => {
            record.amount = amount;
            record.token_ids = Vec::new();
        },
        Deposit::NonFungibleTokenSet { token_ids, .. } => {
            record.amount = U512::zero();
            record.token_ids = token_ids;
        },
        Deposit::Custom => {
            record.amount = U512::zero();
            record.token_ids = Vec::new();
        },
    }
    Ok(())
}

/// Claims the asset for the receiver, given the hash of the secret that the
/// caller presented. On success the outcome is the pay-out to the receiver,
/// and the commitment is taken out of the record. A refused claim leaves the
/// record as it was.
pub fn unlock_with_hash(
    record: &mut EscrowRecord,
    caller: &Key,
    current_time: u64,
    secret_hash: &str,
) -> (outcome: Result<Transfer, Error>)
    ensures
        outcome_view(outcome) == old(record)@.claim_outcome(*caller, current_time, secret_hash@),
        outcome is Ok ==> final(record)@ == old(record)@.cleared(),
        outcome is Err ==> *final(record) == *old(record),
        final(record)@ == step(
            old(record)@,
            Call::Claim { caller: *caller, now: current_time, secret_hash: secret_hash@ },
        ),
        old(record)@.well_formed() ==> final(record)@.well_formed(),
{
    // the owner has the refund, not the claim
    if check_ownership(caller, &record.owner) {
        return Err(Error::AccessDenied);
    }
    if !already_initialized(record) {
        return Err(Error::HashNotSet);
    }
    if is_timed_out(current_time, record.end_time) {
        return Err(Error::EndTimePassed);
    }
    let transfer = match transfer_to(record, secret_hash) {
        Ok(transfer) => transfer,
        Err(error) => {
            return Err(error);
        },
    };
    clear_all(record);
    Ok(transfer)
}

/// Claims the asset for the receiver with the secret itself: the secret is
/// hashed with the algorithm of the commitment, and the claim goes on with
/// that hash.
pub fn unlock(record: &mut EscrowRecord, caller: &Key, current_time: u64, secret: &str) -> (outcome:
    Result<Transfer, Error>)
    ensures
        outcome_view(outcome) == old(record)@.claim_outcome(
            *caller,
            current_time,
            spec_generate_hash(old(record)@.hash_type, secret@),
        ),
        outcome is Ok ==> final(record)@ == old(record)@.cleared(),
        outcome is Err ==> *final(record) == *old(record),
        final(record)@ == step(
            old(record)@,
            Call::Claim {
                caller: *caller,
                now: current_time,
                secret_hash: spec_generate_hash(old(record)@.hash_type, secret@),
            },
        ),
        old(record)@.well_formed() ==> final(record)@.well_formed(),
{
    let secret_hash = generate_hash(record.hash_type.as_str(), secret);
    unlock_with_hash(record, caller, current_time, secret_hash.as_str())
}

/// Takes the asset back for the owner once the deadline has passed. On
/// success the outcome is the pay-out to the owner, and the commitment is
/// taken out of the record. A refused refund leaves the record as it was.
pub fn refund(record: &mut EscrowRecord, caller: &Key, current_time: u64) -> (outcome: Result<
    Transfer,
    Error,
>)
    ensures
        outcome_view(outcome) == old(record)@.refund_outcome(*caller, current_time),
        outcome is Ok ==> final(record)@ == old(record)@.cleared(),
        outcome is Err ==> *final(record) == *old(record),
        final(record)@ == step(old(record)@, Call::Refund { caller: *caller, now: current_time }),
        old(record)@.well_formed() ==> final(record)@.well_formed(),
{
    if !check_ownership(caller, &record.owner) {
        return Err(Error::AccessDenied);
    }
    if !already_initialized(record) {
        return Err(Error::HashNotSet);
    }
    if !is_timed_out(current_time, record.end_time) {
        return Err(Error::EndTimeNotReached);
    }
    let transfer = match transfer_back(record) {
        Ok(transfer) => transfer,
        Err(error) => {
            return Err(error);
        },
    };
    clear_all(record);
    Ok(transfer)
}

/// Hands the owner a reference to the escrow's purse with which money can be
/// paid in and the balance be read, and nothing be taken out.
pub fn get_deposit_purse(record: &EscrowRecord, caller: &Key) -> (outcome: Result<URef, Error>)
    ensures
        outcome == if *caller == record.owner {
            Ok::<URef, Error>(URef(record.purse.0, AccessRights::spec_read_add()))
        } else {
            Err::<URef, Error>(Error::AccessDenied)
        },
{
    if !check_ownership(caller, &record.owner) {
        return Err(Error::AccessDenied);
    }
    Ok(record.purse.into_read_add())
}

} // verus!
