//! What an escrow can hold: the four kinds of asset, what is handed in at
//! setup, and what is paid out at the end.

use crate::error::Error;
use crate::identity::{AccountHash, ContractHash, Key, URef};
use crate::text::str_eq;
use crate::uint::{pow2_256, value_of_4_is_bounded, TokenId, U256, U512};
use vstd::prelude::*;

verus! {

/// The kind of asset that an instance of the escrow holds. It is chosen at
/// installation and stays. The two token kinds name the registry that keeps
/// the tokens.
#[derive(Clone, Copy, Debug, PartialEq, Eq)]
pub enum AssetKind {
    /// Native currency, held in the escrow's own purse.
    Native,
    /// An amount of a fungible token.
    FungibleToken { registry: ContractHash },
    /// A set of non-fungible tokens.
    NonFungibleTokenSet { registry: ContractHash },
    /// An asset that the escrow does not move itself.
    Custom,
}

/// The kind that a tag and a registry stand for, or the reason why they
/// stand for none: an unknown tag, or a token kind without its registry.
/// The fungible kind is known under two spellings.
pub open spec fn spec_asset_kind(tag: Seq<char>, registry: Option<ContractHash>) -> Result<
    AssetKind,
    Error,
> {
    if tag == "NFT"@ {
        match registry {
            Some(registry) => Ok(AssetKind::NonFungibleTokenSet { registry }),
            None => Err(Error::ContractHashNotSet),
        }
    } else if tag == "ERC-20"@ || tag == "ERC20"@ {
        match registry {
            Some(registry) => Ok(AssetKind::FungibleToken { registry }),
            None => Err(Error::ContractHashNotSet),
        }
    } else if tag == "Direct"@ {
        Ok(AssetKind::Native)
    } else if tag == "Custom"@ {
        Ok(AssetKind::Custom)
    } else {
        Err(Error::TypeNotSupported)
    }
}

impl AssetKind {
    /// The tag under which this kind is stored.
    pub open spec fn spec_tag(self) -> Seq<char> {
        match self {
            AssetKind::Native => "Direct"@,
            AssetKind::FungibleToken { .. } => "ERC-20"@,
            AssetKind::NonFungibleTokenSet { .. } => "NFT"@,
            AssetKind::Custom => "Custom"@,
        }
    }

    /// The registry that keeps the tokens, for the two token kinds.
    pub open spec fn spec_registry(self) -> Option<ContractHash> {
        match self {
            AssetKind::FungibleToken { registry } => Some(registry),
            AssetKind::NonFungibleTokenSet { registry } => Some(registry),
            _ => None,
        }
    }

    /// The kind that `tag` names. The two token kinds need their registry;
    /// the other two take none and drop one that is given.
    pub fn from_tag(tag: &str, registry: Option<ContractHash>) -> (kind: Result<AssetKind, Error>)
        ensures
            kind == spec_asset_kind(tag@, registry),
    {
        if str_eq(tag, "NFT") {
            match registry {
                Some(registry) => Ok(AssetKind::NonFungibleTokenSet { registry }),
                None => Err(Error::ContractHashNotSet),
            }
        } else if str_eq(tag, "ERC-20") || str_eq(tag, "ERC20") {
            match registry {
                Some(registry) => Ok(AssetKind::FungibleToken { registry }),
                None => Err(Error::ContractHashNotSet),
            }
        } else if str_eq(tag, "Direct") {
            Ok(AssetKind::Native)
        } else if str_eq(tag, "Custom") {
            Ok(AssetKind::Custom)
        } else {
            Err(Error::TypeNotSupported)
        }
    }

    /// The tag under which this kind is stored.
    pub fn tag(&self) -> (tag: &'static str)
        ensures
            tag@ == self.spec_tag(),
    {
        match self {
            AssetKind::Native => "Direct",
            AssetKind::FungibleToken { .. } => "ERC-20",
            AssetKind::NonFungibleTokenSet { .. } => "NFT",
            AssetKind::Custom => "Custom",
        }
    }

    /// The registry that keeps the tokens, for the two token kinds.
    pub fn registry(&self) -> (registry: Option<ContractHash>)
        ensures
            registry == self.spec_registry(),
    {
        match self {
            AssetKind::FungibleToken { registry } => Some(*registry),
            AssetKind::NonFungibleTokenSet { registry } => Some(*registry),
            _ => None,
        }
    }
}

/// A kind read back from its tag and its registry is the kind itself.
pub proof fn tag_names_its_kind(kind: AssetKind)
    ensures
        spec_asset_kind(kind.spec_tag(), kind.spec_registry()) == Ok::<AssetKind, Error>(kind),
{
    reveal_strlit("NFT");
    reveal_strlit("ERC-20");
    reveal_strlit("ERC20");
    reveal_strlit("Direct");
    reveal_strlit("Custom");
    // The tags differ in their length or in their first letter.
    assert("Direct"@[0] == 'D');
    assert("ERC-20"@[0] == 'E');
    assert("Custom"@[0] == 'C');
}

/// What is handed in at setup: the asset to lock, together with what the
/// ledger reports of the escrow's custody of it at that moment.
#[derive(Debug, PartialEq, Eq)]
pub enum Deposit {
    /// An amount of native currency, and the balance of the escrow's purse,
    /// if the purse has one.
    Native { amount: U512, purse_balance: Option<U512> },
    /// An amount of the token, and the escrow's balance at the registry.
    FungibleToken { amount: U512, custody_balance: U256 },
    /// The tokens, and for each of them in turn the owner that the registry
    /// reports, if it reports one.
    NonFungibleTokenSet { token_ids: Vec<TokenId>, owners: Vec<Option<Key>> },
    /// Nothing the escrow looks at.
    Custom,
}

/// A deposit as numbers and sequences.
pub enum DepositView {
    Native { amount: nat, purse_balance: Option<nat> },
    FungibleToken { amount: nat, custody_balance: nat },
    NonFungibleTokenSet { token_ids: Seq<TokenId>, owners: Seq<Option<Key>> },
    Custom,
}

impl View for Deposit {
    type V = DepositView;

    open spec fn view(&self) -> DepositView {
        match *self {
            Deposit::Native { amount, purse_balance } => DepositView::Native {
                amount: amount@,
                purse_balance: match purse_balance {
                    Some(balance) => Some(balance@),
                    None => None,
                },
            },
            Deposit::FungibleToken { amount, custody_balance } => DepositView::FungibleToken {
                amount: amount@,
                custody_balance: custody_balance@,
            },
            Deposit::NonFungibleTokenSet { token_ids, owners } => DepositView::NonFungibleTokenSet {
                token_ids: token_ids@,
                owners: owners@,
            },
            Deposit::Custom => DepositView::Custom,
        }
    }
}

impl DepositView {
    /// Whether the balance that a registry reports fits its 256 bits, as
    /// that of every `Deposit` does.
    pub open spec fn in_range(self) -> bool {
        self matches DepositView::FungibleToken { custody_balance, .. } ==> custody_balance
            < pow2_256()
    }

    /// The amount to lock; zero where the deposit is not an amount.
    pub open spec fn amount(self) -> nat {
        match self {
            DepositView::Native { amount, .. } => amount,
            DepositView::FungibleToken { amount, .. } => amount,
            _ => 0,
        }
    }

    /// The tokens to lock; none where the deposit is not a set of tokens.
    pub open spec fn token_ids(self) -> Seq<TokenId> {
        match self {
            DepositView::NonFungibleTokenSet { token_ids, .. } => token_ids,
            _ => Seq::empty(),
        }
    }
}

/// What a registry reports fits its 256 bits.
pub proof fn deposit_is_in_range(deposit: Deposit)
    ensures
        deposit@.in_range(),
{
    if let Deposit::FungibleToken { custody_balance, .. } = deposit {
        value_of_4_is_bounded(
            custody_balance.limbs[0],
            custody_balance.limbs[1],
            custody_balance.limbs[2],
            custody_balance.limbs[3],
        );
    }
}

/// What has to be paid out once a claim or a refund has gone through. The
/// escrow decides it; the ledger carries it out.
#[derive(Debug, PartialEq, Eq)]
#[allow(inconsistent_fields)]
pub enum Transfer {
    /// Pay `amount` of native currency out of `purse` to the account.
    Native { purse: URef, target: AccountHash, amount: U512 },
    /// Have the registry move `amount` of the token to `recipient`.
    FungibleToken { registry: ContractHash, recipient: Key, amount: U256 },
    /// Have the registry move all of the tokens to `recipient` at once.
    NonFungibleTokenSet { registry: ContractHash, recipient: Key, token_ids: Vec<TokenId> },
    /// Move nothing.
    Nothing,
}

/// A transfer as numbers and sequences.
pub enum TransferView {
    Native { purse: URef, target: AccountHash, amount: nat },
    FungibleToken { registry: ContractHash, recipient: Key, amount: nat },
    NonFungibleTokenSet { registry: ContractHash, recipient: Key, token_ids: Seq<TokenId> },
    Nothing,
}

impl View for Transfer {
    type V = TransferView;

    open spec fn view(&self) -> TransferView {
        match *self {
            Transfer::Native { purse, target, amount } => TransferView::Native {
                purse,
                target,
                amount: amount@,
            },
            Transfer::FungibleToken { registry, recipient, amount } => TransferView::FungibleToken {
                registry,
                recipient,
                amount: amount@,
            },
            Transfer::NonFungibleTokenSet {
                registry,
                recipient,
                token_ids,
            } => TransferView::NonFungibleTokenSet { registry, recipient, token_ids: token_ids@ },
            Transfer::Nothing => TransferView::Nothing,
        }
    }
}

/// The outcome of a pay-out decision as numbers and sequences.
pub open spec fn outcome_view(outcome: Result<Transfer, Error>) -> Result<TransferView, Error> {
    match outcome {
        Ok(transfer) => Ok(transfer@),
        Err(error) => Err(error),
    }
}

} // verus!
