//! Custody of a fungible token. The registry of the token keeps the books:
//! the escrow holds what the registry says it holds.

use crate::asset::{Transfer, TransferView};
use crate::error::Error;
use crate::identity::{ContractHash, Key};
use crate::uint::{pow2_256, u512_less_than, U512ToU256, U256, U512};
use vstd::prelude::*;

verus! {

/// Whether `amount` can be locked, given the balance that the registry
/// reports for the escrow: the amount is not zero and the balance covers it.
pub open spec fn spec_lock_precheck(amount: nat, custody_balance: nat) -> Result<(), Error> {
    if amount == 0 {
        Err(Error::RuntimeArgFailed)
    } else if custody_balance < amount {
        Err(Error::NotEnoughBalance)
    } else {
        Ok(())
    }
}

/// The order to the registry to move `amount` to `recipient`. The registry
/// counts in 256 bits.
pub open spec fn spec_transfer_erc20(registry: ContractHash, amount: nat, recipient: Key)
    -> TransferView {
    TransferView::FungibleToken { registry, recipient, amount: amount % pow2_256() }
}

/// Checks that `amount` can be locked, given the balance that the registry
/// reports for the escrow. The tokens have to be in the escrow's custody
/// already: an allowance does not count.
pub fn lock_precheck(amount: &U512, custody_balance: &U256) -> (checked: Result<(), Error>)
    ensures
        checked == spec_lock_precheck(amount@, custody_balance@),
{
    if amount.is_zero() {
        return Err(Error::RuntimeArgFailed);
    }
    if u512_less_than(&custody_balance.to_u512(), amount) {
        return Err(Error::NotEnoughBalance);
    }
    Ok(())
}

/// Decides the order to the registry to move `amount` to `receiver`.
pub fn transfer_erc20_tokens_to(registry: &ContractHash, amount: &U512, receiver: &Key) -> (order:
    Transfer)
    ensures
        order@ == spec_transfer_erc20(*registry, amount@, *receiver),
        amount@ < pow2_256() ==> order@ == (TransferView::FungibleToken {
            registry: *registry,
            recipient: *receiver,
            amount: amount@,
        }),
{
    Transfer::FungibleToken {
        registry: *registry,
        recipient: *receiver,
        amount: (*amount).to_u256(),
    }
}

/// Decides the order to the registry to move `amount` back to `owner`.
pub fn transfer_back(registry: &ContractHash, amount: &U512, owner: &Key) -> (order: Transfer)
    ensures
        order@ == spec_transfer_erc20(*registry, amount@, *owner),
{
    transfer_erc20_tokens_to(registry, amount, owner)
}

} // verus!
