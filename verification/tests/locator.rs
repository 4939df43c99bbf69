use std::str::FromStr;

use anchor_lang::prelude::Pubkey;
use stockproduct::errors::ErrorCode;
use stockproduct::locator::{
    admit_access, admit_create, check_address, derive_with_bump, validate, Key, Locator,
};
use stockproduct::program::Ledger;

fn program() -> Pubkey {
    Pubkey::from_str("865m9ePhc85sKxN5LgTzYkxG3hQWiwgfxfuzGQUjjiCM").unwrap()
}

fn program_id() -> Key {
    Key::new(program().to_bytes())
}

fn owner(seed: u8) -> Key {
    let mut bytes = [seed; 32];
    bytes[0] = 200;
    bytes[31] = seed.wrapping_add(1);
    Key::new(bytes)
}

fn found(user: &Key) -> Locator {
    stockproduct::locator::derive(&program_id(), user).unwrap()
}

#[test]
fn derive_agrees_with_find_program_address() {
    for seed in 0..16u8 {
        let user = owner(seed);
        let (address, bump) =
            Pubkey::find_program_address(&[b"store_account", &user.bytes], &program());
        let locator = found(&user);
        assert_eq!(locator.address.bytes, address.to_bytes());
        assert_eq!(locator.bump, bump);
        assert_ne!(locator.address, user);
        assert_ne!(locator.address, program_id());
    }
}

#[test]
fn derive_gives_the_same_locator_twice() {
    for seed in 0..16u8 {
        let user = owner(seed);
        let first = found(&user);
        let second = found(&user);
        assert_eq!(first.address, second.address);
        assert_eq!(first.bump, second.bump);
    }
}

#[test]
fn derive_depends_on_owner_and_program() {
    let a = found(&owner(1));
    let b = found(&owner(2));
    assert_ne!(a.address, b.address);
    let elsewhere = stockproduct::locator::derive(&owner(77), &owner(1)).unwrap();
    assert_ne!(a.address, elsewhere.address);
}

#[test]
fn derive_with_bump_agrees_with_create_program_address() {
    let user = owner(3);
    for bump in [0u8, 1, 17, 128, 254, 255] {
        let expected =
            Pubkey::create_program_address(&[b"store_account", &user.bytes, &[bump]], &program())
                .ok()
                .map(|a| a.to_bytes());
        let got = derive_with_bump(&program_id(), &user, bump).map(|k| k.bytes);
        assert_eq!(got, expected);
    }
}

#[test]
fn the_canonical_bump_reproduces_the_address() {
    for seed in 0..16u8 {
        let user = owner(seed);
        let locator = found(&user);
        assert_eq!(derive_with_bump(&program_id(), &user, locator.bump), Some(locator.address));
        assert_eq!(validate(&program_id(), &user, locator.bump, &locator.address), Ok(()));
    }
}

#[test]
fn the_canonical_bump_is_the_largest_valid_one() {
    for seed in 0..16u8 {
        let user = owner(seed);
        let locator = found(&user);
        for bump in locator.bump.saturating_add(1)..=255u8 {
            if bump > locator.bump {
                assert_eq!(derive_with_bump(&program_id(), &user, bump), None);
            }
        }
    }
}

#[test]
fn another_bump_is_an_address_mismatch() {
    let user = owner(4);
    let locator = found(&user);
    let other = locator.bump.wrapping_sub(1);
    assert_eq!(
        validate(&program_id(), &user, other, &locator.address),
        Err(ErrorCode::AddressMismatch)
    );
    assert_eq!(
        validate(&program_id(), &owner(5), locator.bump, &locator.address),
        Err(ErrorCode::AddressMismatch)
    );
    assert_eq!(
        validate(&program_id(), &user, locator.bump, &user),
        Err(ErrorCode::AddressMismatch)
    );
}

#[test]
fn check_address_accepts_only_the_same_address() {
    let a = owner(6);
    let b = owner(7);
    assert_eq!(check_address(&Some(a), &a), Ok(()));
    assert_eq!(check_address(&Some(a), &b), Err(ErrorCode::AddressMismatch));
    assert_eq!(check_address(&None, &a), Err(ErrorCode::AddressMismatch));
}

#[test]
fn keys_compare_byte_by_byte() {
    let a = Key::new([7u8; 32]);
    let mut bytes = [7u8; 32];
    let b = Key::new(bytes);
    assert!(a.same(&b));
    assert!(a == b);
    bytes[31] = 8;
    let c = Key::new(bytes);
    assert!(!a.same(&c));
    assert!(a != c);
    bytes[31] = 7;
    bytes[0] = 6;
    let d = Key::new(bytes);
    assert!(!a.same(&d));
    assert!(a != d);
}

#[test]
fn stored_bump_and_claim_follow_the_slot() {
    let user = owner(8);
    let locator = found(&user);
    let mut ledger = Ledger::new(program_id());
    assert_eq!(ledger.stored_bump(&Some(locator)), None);
    assert_eq!(ledger.claim(&Some(locator), &user), None);
    assert_eq!(stockproduct::program::initialize(&mut ledger, &user, locator.bump), Ok(()));
    assert_eq!(ledger.stored_bump(&Some(locator)), Some(locator.bump));
    assert_eq!(ledger.stored_bump(&None), None);
    assert_eq!(ledger.claim(&Some(locator), &user), Some(locator.address));
    assert_eq!(ledger.claim(&None, &user), None);
}

#[test]
fn slot_functions_decide_on_the_derivations_they_are_given() {
    let user = owner(9);
    let address = Key::new([42u8; 32]);
    let elsewhere = Key::new([43u8; 32]);
    let located = Some(Locator { address, bump: 250 });
    let mut ledger = Ledger::new(program_id());
    assert_eq!(
        ledger.create_slot(&None, &Some(address), &user, 250),
        Err(ErrorCode::AddressMismatch)
    );
    assert_eq!(
        ledger.create_slot(&located, &Some(elsewhere), &user, 250),
        Err(ErrorCode::AddressMismatch)
    );
    assert_eq!(ledger.create_slot(&located, &None, &user, 250), Err(ErrorCode::AddressMismatch));
    assert!(!ledger.has_slot(&address));
    assert_eq!(
        ledger.list_slot(&located, &Some(address), &user).unwrap_err(),
        ErrorCode::SlotNotFound
    );
    assert_eq!(ledger.create_slot(&located, &Some(address), &user, 250), Ok(()));
    assert!(ledger.has_slot(&address));
    assert_eq!(ledger.account_at(&address).unwrap().bump, 250);
    assert_eq!(
        ledger.create_slot(&located, &Some(elsewhere), &user, 250),
        Err(ErrorCode::SlotAlreadyExists)
    );
    assert_eq!(
        ledger.list_slot(&located, &Some(address), &user).unwrap_err(),
        ErrorCode::NoProducts
    );
    assert_eq!(
        ledger.list_slot(&located, &Some(elsewhere), &user).unwrap_err(),
        ErrorCode::AddressMismatch
    );
    assert_eq!(
        ledger.append_to_slot(&located, &None, &user, "Tea".to_string(), "4".to_string(), 1, 2),
        Err(ErrorCode::AddressMismatch)
    );
    assert_eq!(
        ledger.append_to_slot(&None, &Some(address), &user, "Tea".to_string(), "4".to_string(), 1, 2),
        Err(ErrorCode::AddressMismatch)
    );
    assert_eq!(
        ledger.append_to_slot(
            &Some(Locator { address: elsewhere, bump: 250 }),
            &Some(elsewhere),
            &user,
            "Tea".to_string(),
            "4".to_string(),
            1,
            2
        ),
        Err(ErrorCode::SlotNotFound)
    );
    assert_eq!(
        ledger.append_to_slot(&located, &Some(address), &user, "Tea".to_string(), "4".to_string(), 1, 2),
        Ok(())
    );
    let listed = ledger.list_slot(&located, &Some(address), &user).unwrap();
    assert_eq!(listed.len(), 1);
    assert_eq!(listed[0].item, "Tea");
    assert_eq!(listed[0].price, "4");
    assert_eq!(listed[0].quantity, 1);
    assert_eq!(listed[0].entrydate, 2);
}

#[test]
fn the_create_guard_reports_an_existing_slot_first() {
    let address = Key::new([1u8; 32]);
    let elsewhere = Key::new([2u8; 32]);
    let located = Some(Locator { address, bump: 255 });
    assert_eq!(admit_create(&located, false, &Some(address)), Ok(address));
    assert_eq!(admit_create(&located, true, &Some(address)), Err(ErrorCode::SlotAlreadyExists));
    assert_eq!(admit_create(&located, true, &Some(elsewhere)), Err(ErrorCode::SlotAlreadyExists));
    assert_eq!(admit_create(&located, true, &None), Err(ErrorCode::SlotAlreadyExists));
    assert_eq!(admit_create(&located, false, &Some(elsewhere)), Err(ErrorCode::AddressMismatch));
    assert_eq!(admit_create(&located, false, &None), Err(ErrorCode::AddressMismatch));
    assert_eq!(admit_create(&None, false, &Some(address)), Err(ErrorCode::AddressMismatch));
    assert_eq!(admit_create(&None, true, &Some(address)), Err(ErrorCode::AddressMismatch));
}

#[test]
fn the_access_guard_reports_a_missing_slot_first() {
    let address = Key::new([1u8; 32]);
    let elsewhere = Key::new([2u8; 32]);
    let located = Some(Locator { address, bump: 255 });
    assert_eq!(admit_access(&located, true, &Some(address)), Ok(address));
    assert_eq!(admit_access(&located, false, &Some(address)), Err(ErrorCode::SlotNotFound));
    assert_eq!(admit_access(&located, false, &None), Err(ErrorCode::SlotNotFound));
    assert_eq!(admit_access(&located, true, &Some(elsewhere)), Err(ErrorCode::AddressMismatch));
    assert_eq!(admit_access(&located, true, &None), Err(ErrorCode::AddressMismatch));
    assert_eq!(admit_access(&None, true, &Some(address)), Err(ErrorCode::AddressMismatch));
    assert_eq!(admit_access(&None, false, &None), Err(ErrorCode::AddressMismatch));
}
