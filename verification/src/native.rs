//! Custody of native currency, which the escrow holds in a purse of its own.

use crate::asset::{outcome_view, Transfer, TransferView};
use crate::error::Error;
use crate::identity::{Key, URef};
use crate::uint::{u512_checked_sub, u512_less_than, U512};
use vstd::prelude::*;

verus! {

/// What the purse must still hold once the locked amount is set aside, so
/// that it can pay for its own upkeep: two and a half units of the currency.
pub const RESERVE: u64 = 2_500_000_000;

/// Whether `amount` can be locked in a purse with the balance
/// `purse_balance`: the amount is not zero, the purse has a balance that
/// covers it, and what is left beside it is no less than the reserve.
pub open spec fn spec_lock_precheck(amount: nat, purse_balance: Option<nat>) -> Result<
    (),
    Error,
> {
    if amount == 0 {
        Err(Error::RuntimeArgFailed)
    } else {
        match purse_balance {
            None => Err(Error::PurseNotSet),
            Some(balance) => if balance < amount || balance - amount < RESERVE {
                Err(Error::NotEnoughBalance)
            } else {
                Ok(())
            },
        }
    }
}

/// The payment of `amount` out of `purse` to `receiver`, who has to be an
/// account.
pub open spec fn spec_transfer_native(purse: URef, amount: nat, receiver: Key) -> Result<
    TransferView,
    Error,
> {
    match receiver {
        Key::Account(target) => Ok(TransferView::Native { purse, target, amount }),
        _ => Err(Error::ReciverNotAnAccount),
    }
}

/// Checks that `amount` can be locked in a purse with the balance
/// `purse_balance`.
pub fn lock_precheck(amount: &U512, purse_balance: &Option<U512>) -> (checked: Result<(), Error>)
    ensures
        checked == spec_lock_precheck(
            amount@,
            match *purse_balance {
                Some(balance) => Some(balance@),
                None => None,
            },
        ),
{
    if amount.is_zero() {
        return Err(Error::RuntimeArgFailed);
    }
    let balance = match purse_balance {
        Some(balance) => balance,
        None => {
            return Err(Error::PurseNotSet);
        },
    };
    let rest = match u512_checked_sub(balance, amount) {
        Some(rest) => rest,
        None => {
            return Err(Error::NotEnoughBalance);
        },
    };
    if u512_less_than(&rest, &U512::from_u64(RESERVE)) {
        return Err(Error::NotEnoughBalance);
    }
    Ok(())
}

/// Decides the payment of `amount` out of `purse` to `receiver`. Native
/// currency goes to accounts only.
pub fn transfer_native_tokens_to(purse: &URef, amount: &U512, receiver: &Key) -> (outcome: Result<
    Transfer,
    Error,
>)
    ensures
        outcome_view(outcome) == spec_transfer_native(*purse, amount@, *receiver),
{
    let target = match receiver {
        Key::Account(account_hash) => *account_hash,
        _ => {
            return Err(Error::ReciverNotAnAccount);
        },
    };
    Ok(Transfer::Native { purse: *purse, target, amount: *amount })
}

/// Decides the payment of `amount` out of `purse` back to `owner`.
pub fn transfer_native_tokens_back(purse: &URef, amount: &U512, owner: &Key) -> (outcome: Result<
    Transfer,
    Error,
>)
    ensures
        outcome_view(outcome) == spec_transfer_native(*purse, amount@, *owner),
{
    transfer_native_tokens_to(purse, amount, owner)
}

} // verus!
