//! The allowlist of assets.

use talos_contracts::address::{from_key, Address, AddressSet};
use talos_contracts::allowlist::{AllowlistError, AssetAllowlist};
use talos_contracts::invocation::Invocation;

fn address(lo: u128) -> Address {
    Address { contract: false, hi: 4, lo }
}

#[test]
fn assets_come_and_go() {
    let (admin, usd, eur) = (address(1), address(2), address(3));
    let mut list = AssetAllowlist::new();
    let mut e = Invocation::new(0, vec![admin]);
    assert_eq!(list.initialize(&mut e, admin), Ok(()));
    assert!(!list.is_allowed(usd));

    assert_eq!(list.add_asset(&mut e, usd), Ok(()));
    assert_eq!(list.add_asset(&mut e, usd), Ok(()));
    assert!(list.is_allowed(usd));
    assert!(!list.is_allowed(eur));

    assert_eq!(list.remove_asset(&mut e, eur), Ok(()));
    assert!(list.is_allowed(usd));
    assert_eq!(list.remove_asset(&mut e, usd), Ok(()));
    assert!(!list.is_allowed(usd));
    assert!(e.events.is_empty());
}

#[test]
fn only_the_administrator_changes_the_list() {
    let (admin, stranger, usd) = (address(1), address(2), address(3));
    let mut list = AssetAllowlist::new();
    let mut nobody = Invocation::new(0, vec![stranger]);
    assert_eq!(list.add_asset(&mut nobody, usd), Err(AllowlistError::NotInitialized));
    assert_eq!(list.remove_asset(&mut nobody, usd), Err(AllowlistError::NotInitialized));
    assert_eq!(list.initialize(&mut nobody, admin), Ok(()));
    assert_eq!(list.initialize(&mut nobody, stranger), Err(AllowlistError::AlreadyInitialized));
    assert_eq!(list.add_asset(&mut nobody, usd), Err(AllowlistError::Unauthorized(admin)));
    assert_eq!(list.remove_asset(&mut nobody, usd), Err(AllowlistError::Unauthorized(admin)));
    assert!(!list.is_allowed(usd));
}

#[test]
fn allowlist_refusals_have_words() {
    assert_eq!(AllowlistError::AlreadyInitialized.message(), "already initialized");
    assert_eq!(AllowlistError::NotInitialized.message(), "not initialized");
    assert_eq!(AllowlistError::Unauthorized(address(1)).message(), "Missing authorization");
}

#[test]
fn keys_and_sets_of_addresses() {
    let account = address(5);
    let contract = Address { contract: true, ..account };
    assert_eq!(account.to_key(), (false, 4, 5));
    assert_eq!(from_key(contract.to_key()), contract);

    let mut set = AddressSet::new();
    set.insert(account);
    assert!(set.contains(account));
    assert!(!set.contains(contract));
    set.remove(account);
    assert!(!set.contains(account));
}
