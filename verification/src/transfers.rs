//! The pay-out of whatever an escrow holds, to the receiver or back to the
//! owner, decided by the kind of asset.

use crate::asset::{outcome_view, AssetKind, Transfer, TransferView};
use crate::error::Error;
use crate::fungible;
use crate::identity::Key;
use crate::native;
use crate::nft;
use crate::record::{EscrowRecord, EscrowState};
use crate::text::str_eq;
use vstd::prelude::*;

verus! {

/// The pay-out of what the record holds to `to`. Native currency is paid
/// out of the purse, and to accounts only; tokens are moved by their
/// registry; an asset of the custom kind moves nothing.
pub open spec fn spec_release(state: EscrowState, to: Key) -> Result<TransferView, Error> {
    match state.kind {
        AssetKind::Native => native::spec_transfer_native(state.purse, state.amount, to),
        AssetKind::FungibleToken { registry } => Ok(
            fungible::spec_transfer_erc20(registry, state.amount, to),
        ),
        AssetKind::NonFungibleTokenSet { registry } => Ok(
            nft::spec_transfer_tokens(registry, to, state.token_ids),
        ),
        AssetKind::Custom => Ok(TransferView::Nothing),
    }
}

/// The pay-out to the receiver against the hash of a presented secret: none
/// unless the hash is the stored commitment, character for character.
pub open spec fn spec_transfer_to(state: EscrowState, secret_hash: Seq<char>) -> Result<
    TransferView,
    Error,
> {
    if secret_hash != state.hash {
        Err(Error::HashMismatch)
    } else {
        spec_release(state, state.receiver)
    }
}

/// Decides the pay-out of what the record holds to `to`.
fn release(record: &EscrowRecord, to: &Key) -> (outcome: Result<Transfer, Error>)
    ensures
        outcome_view(outcome) == spec_release(record@, *to),
{
    match &record.kind {
        AssetKind::NonFungibleTokenSet { registry } => Ok(
            nft::transfer_to(registry, &record.token_ids, to),
        ),
        AssetKind::FungibleToken { registry } => Ok(
            fungible::transfer_erc20_tokens_to(registry, &record.amount, to),
        ),
        AssetKind::Native => native::transfer_native_tokens_to(&record.purse, &record.amount, to),
        AssetKind::Custom => Ok(Transfer::Nothing),
    }
}

/// Decides the pay-out to the receiver, given the hash of the secret that
/// was presented. A hash other than the stored commitment is refused.
pub fn transfer_to(record: &EscrowRecord, secret_hash: &str) -> (outcome: Result<Transfer, Error>)
    ensures
        outcome_view(outcome) == spec_transfer_to(record@, secret_hash@),
{
    if !str_eq(secret_hash, record.hash.as_str()) {
        return Err(Error::HashMismatch);
    }
    release(record, &record.receiver)
}

/// Decides the pay-out back to the owner.
pub fn transfer_back(record: &EscrowRecord) -> (outcome: Result<Transfer, Error>)
    ensures
        outcome_view(outcome) == spec_release(record@, record.owner),
{
    release(record, &record.owner)
}

} // verus!
