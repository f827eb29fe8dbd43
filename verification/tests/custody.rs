use atomic_swap::asset::{AssetKind, Deposit, Transfer};
use atomic_swap::error::Error;
use atomic_swap::escrow::lock_precheck;
use atomic_swap::fungible;
use atomic_swap::identity::{
    AccessRights, AccountHash, ContractHash, ContractPackageHash, Key, URef,
};
use atomic_swap::native;
use atomic_swap::nft;
use atomic_swap::uint::{U256, U512};

const RESERVE: u64 = 2_500_000_000;

fn coins(value: u64) -> U512 {
    U512::from_u64(value)
}

fn registry() -> ContractHash {
    ContractHash::new([0xaa; 32])
}

fn package() -> ContractPackageHash {
    ContractPackageHash::new([0xee; 32])
}

fn custodian() -> Option<Key> {
    Some(Key::Hash([0xee; 32]))
}

fn purse() -> URef {
    URef::new([0x11; 32], AccessRights { read: true, write: true, add: true })
}

#[test]
fn the_reserve_is_two_and_a_half_units() {
    assert_eq!(native::RESERVE, 2_500_000_000);
}

#[test]
fn native_amount_is_locked_when_the_reserve_stays() {
    assert_eq!(native::lock_precheck(&coins(10), &Some(coins(RESERVE + 10))), Ok(()));
    assert_eq!(native::lock_precheck(&coins(10), &Some(coins(RESERVE + 11))), Ok(()));
    assert_eq!(native::lock_precheck(&coins(1), &Some(coins(u64::MAX))), Ok(()));
}

#[test]
fn native_amount_is_refused_when_the_reserve_is_touched() {
    assert_eq!(
        native::lock_precheck(&coins(10), &Some(coins(RESERVE + 9))),
        Err(Error::NotEnoughBalance)
    );
    assert_eq!(
        native::lock_precheck(&coins(10), &Some(coins(RESERVE + 5))),
        Err(Error::NotEnoughBalance)
    );
    assert_eq!(native::lock_precheck(&coins(10), &Some(coins(10))), Err(Error::NotEnoughBalance));
}

#[test]
fn native_amount_above_the_balance_is_refused() {
    assert_eq!(native::lock_precheck(&coins(10), &Some(coins(9))), Err(Error::NotEnoughBalance));
    assert_eq!(native::lock_precheck(&coins(10), &Some(coins(0))), Err(Error::NotEnoughBalance));
    let huge = U512 { limbs: [0, 0, 0, 0, 0, 0, 0, 1] };
    assert_eq!(
        native::lock_precheck(&huge, &Some(coins(u64::MAX))),
        Err(Error::NotEnoughBalance)
    );
}

#[test]
fn native_amounts_beyond_one_limb() {
    // 2^64 in the purse, 1 to lock: 2^64 - 1 is left, far above the reserve.
    let two_to_64 = U512 { limbs: [0, 1, 0, 0, 0, 0, 0, 0] };
    assert_eq!(native::lock_precheck(&coins(1), &Some(two_to_64)), Ok(()));
    // 2^64 + reserve - 1 in the purse, 2^64 to lock: one short of the reserve.
    let balance = U512 { limbs: [RESERVE - 1, 1, 0, 0, 0, 0, 0, 0] };
    assert_eq!(native::lock_precheck(&two_to_64, &Some(balance)), Err(Error::NotEnoughBalance));
    let balance = U512 { limbs: [RESERVE, 1, 0, 0, 0, 0, 0, 0] };
    assert_eq!(native::lock_precheck(&two_to_64, &Some(balance)), Ok(()));
    // The low limb of the balance is the smaller, the balance itself the larger.
    let balance = U512 { limbs: [0, 0, 0, 0, 0, 0, 0, 1] };
    assert_eq!(native::lock_precheck(&coins(u64::MAX), &Some(balance)), Ok(()));
}

#[test]
fn native_purse_without_a_balance() {
    assert_eq!(native::lock_precheck(&coins(10), &None), Err(Error::PurseNotSet));
}

#[test]
fn native_amount_of_zero_is_refused() {
    assert_eq!(
        native::lock_precheck(&coins(0), &Some(coins(RESERVE + 10))),
        Err(Error::RuntimeArgFailed)
    );
    assert_eq!(native::lock_precheck(&coins(0), &None), Err(Error::RuntimeArgFailed));
}

#[test]
fn native_currency_goes_to_accounts() {
    let receiver = AccountHash::new([2; 32]);
    assert_eq!(
        native::transfer_native_tokens_to(&purse(), &coins(10), &Key::Account(receiver)),
        Ok(Transfer::Native { purse: purse(), target: receiver, amount: coins(10) })
    );
    assert_eq!(
        native::transfer_native_tokens_back(&purse(), &coins(10), &Key::Account(receiver)),
        Ok(Transfer::Native { purse: purse(), target: receiver, amount: coins(10) })
    );
}

#[test]
fn native_currency_does_not_go_to_contracts() {
    assert_eq!(
        native::transfer_native_tokens_to(&purse(), &coins(10), &Key::Hash([2; 32])),
        Err(Error::ReciverNotAnAccount)
    );
    assert_eq!(
        native::transfer_native_tokens_back(&purse(), &coins(10), &Key::Hash([2; 32])),
        Err(Error::ReciverNotAnAccount)
    );
}

#[test]
fn token_amount_is_locked_when_custody_covers_it() {
    assert_eq!(fungible::lock_precheck(&coins(10), &U256::from_u64(10)), Ok(()));
    assert_eq!(fungible::lock_precheck(&coins(10), &U256::from_u64(11)), Ok(()));
    let balance = U256 { limbs: [0, 0, 0, 1] };
    assert_eq!(fungible::lock_precheck(&coins(u64::MAX), &balance), Ok(()));
}

#[test]
fn token_amount_above_custody_is_refused() {
    assert_eq!(
        fungible::lock_precheck(&coins(10), &U256::from_u64(9)),
        Err(Error::NotEnoughBalance)
    );
    assert_eq!(fungible::lock_precheck(&coins(1), &U256::zero()), Err(Error::NotEnoughBalance));
    // An amount that no registry can hold.
    let amount = U512 { limbs: [0, 0, 0, 0, 1, 0, 0, 0] };
    let balance = U256 { limbs: [u64::MAX; 4] };
    assert_eq!(fungible::lock_precheck(&amount, &balance), Err(Error::NotEnoughBalance));
}

#[test]
fn token_amount_of_zero_is_refused() {
    assert_eq!(
        fungible::lock_precheck(&coins(0), &U256::from_u64(9)),
        Err(Error::RuntimeArgFailed)
    );
}

#[test]
fn tokens_are_moved_by_their_registry() {
    let receiver = Key::Hash([3; 32]);
    assert_eq!(
        fungible::transfer_erc20_tokens_to(&registry(), &coins(10), &receiver),
        Transfer::FungibleToken {
            registry: registry(),
            recipient: receiver,
            amount: U256::from_u64(10)
        }
    );
    let owner = Key::Account(AccountHash::new([1; 32]));
    assert_eq!(
        fungible::transfer_back(&registry(), &coins(10), &owner),
        Transfer::FungibleToken { registry: registry(), recipient: owner, amount: U256::from_u64(10) }
    );
}

#[test]
fn all_tokens_held_by_the_escrow() {
    let ids = vec![U256::from_u64(1), U256::from_u64(2), U256::from_u64(3)];
    let owners = vec![custodian(), custodian(), custodian()];
    assert!(nft::check_nfts_ownership(&ids, &owners, &package()));
    assert!(nft::check_nfts_ownership(&vec![], &vec![], &package()));
}

#[test]
fn one_token_held_by_another_fails_the_set() {
    let ids = vec![U256::from_u64(1), U256::from_u64(2), U256::from_u64(3)];
    let stranger = Some(Key::Hash([0xef; 32]));
    assert!(!nft::check_nfts_ownership(&ids, &vec![stranger, custodian(), custodian()], &package()));
    assert!(!nft::check_nfts_ownership(&ids, &vec![custodian(), stranger, custodian()], &package()));
    assert!(!nft::check_nfts_ownership(&ids, &vec![custodian(), custodian(), stranger], &package()));
    // The same address as an account is not the package.
    let account = Some(Key::Account(AccountHash::new([0xee; 32])));
    assert!(!nft::check_nfts_ownership(&ids, &vec![custodian(), custodian(), account], &package()));
}

#[test]
fn a_token_without_an_owner_fails_the_set() {
    let ids = vec![U256::from_u64(1), U256::from_u64(2)];
    assert!(!nft::check_nfts_ownership(&ids, &vec![custodian(), None], &package()));
    assert!(!nft::check_nfts_ownership(&ids, &vec![None, None], &package()));
}

#[test]
fn an_owner_is_needed_for_every_token() {
    let ids = vec![U256::from_u64(1), U256::from_u64(2)];
    assert!(!nft::check_nfts_ownership(&ids, &vec![custodian()], &package()));
    assert!(!nft::check_nfts_ownership(&ids, &vec![], &package()));
    assert!(!nft::check_nfts_ownership(&ids, &vec![custodian(); 3], &package()));
}

#[test]
fn the_whole_set_moves_in_one_order() {
    let ids = vec![U256::from_u64(1), U256::from_u64(2), U256 { limbs: [0, 0, 0, 9] }];
    let receiver = Key::Account(AccountHash::new([2; 32]));
    assert_eq!(
        nft::transfer_to(&registry(), &ids, &receiver),
        Transfer::NonFungibleTokenSet {
            registry: registry(),
            recipient: receiver,
            token_ids: ids.clone()
        }
    );
    let owner = Key::Account(AccountHash::new([1; 32]));
    assert_eq!(
        nft::transfer_back(&registry(), &ids, &owner),
        Transfer::NonFungibleTokenSet { registry: registry(), recipient: owner, token_ids: ids }
    );
}

#[test]
fn the_deposit_has_to_be_of_the_kind_of_the_escrow() {
    let native = Deposit::Native { amount: coins(10), purse_balance: Some(coins(RESERVE + 10)) };
    let tokens = Deposit::FungibleToken { amount: coins(10), custody_balance: U256::from_u64(10) };
    let set = Deposit::NonFungibleTokenSet {
        token_ids: vec![U256::from_u64(1)],
        owners: vec![custodian()],
    };
    let kinds = [
        AssetKind::Native,
        AssetKind::FungibleToken { registry: registry() },
        AssetKind::NonFungibleTokenSet { registry: registry() },
        AssetKind::Custom,
    ];
    let deposits = [native, tokens, set, Deposit::Custom];
    for (i, kind) in kinds.iter().enumerate() {
        for (j, deposit) in deposits.iter().enumerate() {
            let expected = if i == j { Ok(()) } else { Err(Error::TypeNotSupported) };
            assert_eq!(lock_precheck(kind, deposit, &package()), expected);
        }
    }
}

#[test]
fn each_kind_runs_its_own_check() {
    let short = Deposit::Native { amount: coins(10), purse_balance: Some(coins(RESERVE)) };
    assert_eq!(
        lock_precheck(&AssetKind::Native, &short, &package()),
        Err(Error::NotEnoughBalance)
    );
    let short = Deposit::FungibleToken { amount: coins(10), custody_balance: U256::from_u64(9) };
    assert_eq!(
        lock_precheck(&AssetKind::FungibleToken { registry: registry() }, &short, &package()),
        Err(Error::NotEnoughBalance)
    );
    let foreign = Deposit::NonFungibleTokenSet {
        token_ids: vec![U256::from_u64(1)],
        owners: vec![Some(Key::Hash([1; 32]))],
    };
    assert_eq!(
        lock_precheck(&AssetKind::NonFungibleTokenSet { registry: registry() }, &foreign, &package()),
        Err(Error::NFTsNotOwnedByContract)
    );
}

#[test]
fn the_kinds_and_their_tags() {
    assert_eq!(AssetKind::from_tag("Direct", None), Ok(AssetKind::Native));
    assert_eq!(AssetKind::from_tag("Custom", None), Ok(AssetKind::Custom));
    assert_eq!(
        AssetKind::from_tag("NFT", Some(registry())),
        Ok(AssetKind::NonFungibleTokenSet { registry: registry() })
    );
    assert_eq!(
        AssetKind::from_tag("ERC-20", Some(registry())),
        Ok(AssetKind::FungibleToken { registry: registry() })
    );
    assert_eq!(
        AssetKind::from_tag("ERC20", Some(registry())),
        Ok(AssetKind::FungibleToken { registry: registry() })
    );
    // The kinds without a registry drop one that is given.
    assert_eq!(AssetKind::from_tag("Direct", Some(registry())), Ok(AssetKind::Native));
    assert_eq!(AssetKind::from_tag("Custom", Some(registry())), Ok(AssetKind::Custom));
}

#[test]
fn an_unknown_tag_is_no_kind() {
    assert_eq!(AssetKind::from_tag("", None), Err(Error::TypeNotSupported));
    assert_eq!(AssetKind::from_tag("direct", None), Err(Error::TypeNotSupported));
    assert_eq!(AssetKind::from_tag("ERC-721", Some(registry())), Err(Error::TypeNotSupported));
}

#[test]
fn a_token_kind_needs_its_registry() {
    assert_eq!(AssetKind::from_tag("NFT", None), Err(Error::ContractHashNotSet));
    assert_eq!(AssetKind::from_tag("ERC-20", None), Err(Error::ContractHashNotSet));
    assert_eq!(AssetKind::from_tag("ERC20", None), Err(Error::ContractHashNotSet));
}

#[test]
fn a_kind_is_read_back_from_its_tag() {
    let kinds = [
        AssetKind::Native,
        AssetKind::FungibleToken { registry: registry() },
        AssetKind::NonFungibleTokenSet { registry: registry() },
        AssetKind::Custom,
    ];
    for kind in kinds {
        assert_eq!(AssetKind::from_tag(kind.tag(), kind.registry()), Ok(kind));
    }
    assert_eq!(AssetKind::Native.tag(), "Direct");
    assert_eq!(AssetKind::FungibleToken { registry: registry() }.tag(), "ERC-20");
    assert_eq!(AssetKind::NonFungibleTokenSet { registry: registry() }.tag(), "NFT");
    assert_eq!(AssetKind::Custom.tag(), "Custom");
}
