//! Custody of a set of non-fungible tokens, which a registry keeps.

use crate::asset::{Transfer, TransferView};
use crate::identity::{ContractHash, ContractPackageHash, Key, ToKey};
use crate::uint::TokenId;
use vstd::prelude::*;

verus! {

/// Whether the escrow holds every one of the tokens: for each token the
/// registry reports an owner, and that owner is the escrow's package. One
/// token held by another, or by nobody, fails the whole set.
pub open spec fn spec_check_nfts_ownership(
    token_ids: Seq<TokenId>,
    owners: Seq<Option<Key>>,
    package: ContractPackageHash,
) -> bool {
    &&& owners.len() == token_ids.len()
    &&& forall|i: int| 0 <= i < owners.len() ==> owners[i] == Some(package.spec_to_key())
}

/// The order to the registry to move all of the tokens to `recipient`.
pub open spec fn spec_transfer_tokens(
    registry: ContractHash,
    recipient: Key,
    token_ids: Seq<TokenId>,
) -> TransferView {
    TransferView::NonFungibleTokenSet { registry, recipient, token_ids }
}

/// Checks that the escrow holds every one of the tokens. `owners` holds, in
/// the order of the tokens, the owner that the registry reports for each.
pub fn check_nfts_ownership(
    token_ids: &Vec<TokenId>,
    owners: &Vec<Option<Key>>,
    package: &ContractPackageHash,
) -> (owned: bool)
    ensures
        owned == spec_check_nfts_ownership(token_ids@, owners@, *package),
{
    if owners.len() != token_ids.len() {
        return false;
    }
    let custodian = package.to_key();
    let mut i: usize = 0;
    while i < owners.len()
        invariant
            i <= owners.len(),
            owners.len() == token_ids.len(),
            custodian == package.spec_to_key(),
            forall|j: int| 0 <= j < i ==> owners[j] == Some(custodian),
        decreases owners.len() - i,
    {
        match &owners[i] {
            Some(owner) => {
                if *owner != custodian {
                    return false;
                }
            },
            None => {
                return false;
            },
        }
        i += 1;
    }
    true
}

/// Decides the order to the registry to move all of the tokens to
/// `receiver` in one call.
fn transfer_tokens(registry: &ContractHash, receiver: &Key, token_ids: &Vec<TokenId>) -> (order:
    Transfer)
    ensures
        order@ == spec_transfer_tokens(*registry, *receiver, token_ids@),
{
    Transfer::NonFungibleTokenSet {
        registry: *registry,
        recipient: *receiver,
        token_ids: token_ids.clone(),
    }
}

/// Decides the order to the registry to move the tokens to `receiver`.
pub fn transfer_to(registry: &ContractHash, token_ids: &Vec<TokenId>, receiver: &Key) -> (order:
    Transfer)
    ensures
        order@ == spec_transfer_tokens(*registry, *receiver, token_ids@),
{
    transfer_tokens(registry, receiver, token_ids)
}

/// Decides the order to the registry to move the tokens back to `owner`.
pub fn transfer_back(registry: &ContractHash, token_ids: &Vec<TokenId>, owner: &Key) -> (order:
    Transfer)
    ensures
        order@ == spec_transfer_tokens(*registry, *owner, token_ids@),
{
    transfer_tokens(registry, owner, token_ids)
}

} // verus!
