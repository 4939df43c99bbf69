use stockproduct::errors::ErrorCode;
use stockproduct::instructions::{
    check_store, initialize, record_incoming, CheckStore, Initialize, RecordIncoming,
};
use stockproduct::locator::Key;
use stockproduct::state::store::byte_len;
use stockproduct::state::store_account::{ACCOUNT_SPACE, HEADER_LEN, PAYLOAD_RESERVE};
use stockproduct::state::{Store, StoreAccount};

fn user() -> Key {
    Key::new([9u8; 32])
}

fn record(item: &str, price: &str, quantity: i64, entrydate: i64) -> Store {
    Store::new(item.to_string(), price.to_string(), quantity, entrydate)
}

#[test]
fn slot_size_is_header_plus_reserve() {
    assert_eq!(HEADER_LEN, 8);
    assert_eq!(PAYLOAD_RESERVE, 1000);
    assert_eq!(ACCOUNT_SPACE, HEADER_LEN + PAYLOAD_RESERVE);
}

#[test]
fn initialize_empties_the_account_and_stores_the_bump() {
    let mut stale = StoreAccount::new(1);
    stale.products.push(record("old", "0", 0, 0));
    let mut ctx = Initialize { store_account: stale, user: user() };
    assert_eq!(initialize(&mut ctx, 253), Ok(()));
    assert!(ctx.store_account.products.is_empty());
    assert_eq!(ctx.store_account.bump, 253);
    assert_eq!(ctx.user, user());
}

#[test]
fn record_incoming_pushes_the_record_last() {
    let mut ctx = RecordIncoming { store_account: StoreAccount::new(255), user: user() };
    assert_eq!(record_incoming(&mut ctx, "Yoghurt".to_string(), "2".to_string(), 10, 1000), Ok(()));
    assert_eq!(record_incoming(&mut ctx, "Milk".to_string(), "1".to_string(), 5, 1001), Ok(()));
    assert_eq!(ctx.store_account.products.len(), 2);
    assert_eq!(ctx.store_account.products[0].item, "Yoghurt");
    assert_eq!(ctx.store_account.products[0].price, "2");
    assert_eq!(ctx.store_account.products[0].quantity, 10);
    assert_eq!(ctx.store_account.products[0].entrydate, 1000);
    assert_eq!(ctx.store_account.products[1].item, "Milk");
    assert_eq!(ctx.store_account.products[1].price, "1");
    assert_eq!(ctx.store_account.products[1].quantity, 5);
    assert_eq!(ctx.store_account.products[1].entrydate, 1001);
    assert_eq!(ctx.store_account.bump, 255);
    assert_eq!(ctx.user, user());
}

#[test]
fn record_incoming_refuses_what_does_not_fit() {
    let mut ctx = RecordIncoming { store_account: StoreAccount::new(255), user: user() };
    assert_eq!(record_incoming(&mut ctx, "a".repeat(500), "b".repeat(400), 1, 2), Ok(()));
    // 13 + 24 + 900 = 937 bytes are taken; 71 are left, 24 of them for the
    // fixed part of the next record.
    assert_eq!(
        record_incoming(&mut ctx, "c".repeat(48), String::new(), 3, 4),
        Err(ErrorCode::StorageExhausted)
    );
    assert_eq!(ctx.store_account.products.len(), 1);
    assert_eq!(record_incoming(&mut ctx, "c".repeat(40), "d".repeat(7), 3, 4), Ok(()));
    assert_eq!(ctx.store_account.products.len(), 2);
    assert_eq!(ctx.store_account.serialized_len_within(ACCOUNT_SPACE), Some(1008));
    assert_eq!(
        record_incoming(&mut ctx, String::new(), String::new(), 0, 0),
        Err(ErrorCode::StorageExhausted)
    );
    assert_eq!(ctx.store_account.products.len(), 2);
}

#[test]
fn check_store_copies_the_records() {
    let mut account = StoreAccount::new(7);
    account.products.push(record("Yoghurt", "2", 10, 1000));
    account.products.push(record("Milk", "1", 5, 1001));
    let ctx = CheckStore { store_account: account, user: user() };
    let listed = check_store(&ctx).unwrap();
    assert_eq!(listed.len(), 2);
    assert_eq!(listed[0].item, "Yoghurt");
    assert_eq!(listed[0].price, "2");
    assert_eq!(listed[0].quantity, 10);
    assert_eq!(listed[0].entrydate, 1000);
    assert_eq!(listed[1].item, "Milk");
    assert_eq!(listed[1].price, "1");
    assert_eq!(listed[1].quantity, 5);
    assert_eq!(listed[1].entrydate, 1001);
    assert_eq!(ctx.store_account.products.len(), 2);
}

#[test]
fn check_store_on_an_empty_account_reports_no_products() {
    let ctx = CheckStore { store_account: StoreAccount::new(7), user: user() };
    assert_eq!(check_store(&ctx).unwrap_err(), ErrorCode::NoProducts);
}

#[test]
fn text_is_counted_in_utf8_bytes() {
    assert_eq!(byte_len(&String::new()), 0);
    assert_eq!(byte_len(&"Yoghurt".to_string()), 7);
    assert_eq!(byte_len(&"Käse".to_string()), 5);
    assert_eq!(byte_len(&"牛乳".to_string()), 6);
    assert_eq!(byte_len(&"🥛".to_string()), 4);
}

#[test]
fn a_record_takes_its_texts_and_twenty_four_bytes() {
    let plain = record("Yoghurt", "2", 10, 1000);
    assert_eq!(plain.encoded_len_within(1000), Some(32));
    assert_eq!(plain.encoded_len_within(32), Some(32));
    assert_eq!(plain.encoded_len_within(31), None);
    assert!(plain.fits_in(32));
    assert!(!plain.fits_in(31));
    assert!(!plain.fits_in(0));
    let accented = record("Käse", "2 €", -1, -1);
    assert_eq!(accented.encoded_len_within(usize::MAX), Some(24 + 5 + 5));
    let bare = record("", "", 0, 0);
    assert_eq!(bare.encoded_len_within(24), Some(24));
    assert_eq!(bare.encoded_len_within(23), None);
    assert!(bare.fits_in(24));
    assert!(!bare.fits_in(23));
}

#[test]
fn an_account_takes_thirteen_bytes_and_its_records() {
    let mut account = StoreAccount::new(0);
    assert_eq!(account.serialized_len_within(ACCOUNT_SPACE), Some(13));
    assert_eq!(account.serialized_len_within(13), Some(13));
    assert_eq!(account.serialized_len_within(12), None);
    assert!(account.fits());
    account.products.push(record("Yoghurt", "2", 10, 1000));
    assert_eq!(account.serialized_len_within(ACCOUNT_SPACE), Some(45));
    account.products.push(record("Milk", "1", 5, 1001));
    assert_eq!(account.serialized_len_within(ACCOUNT_SPACE), Some(74));
    assert_eq!(account.serialized_len_within(74), Some(74));
    assert_eq!(account.serialized_len_within(73), None);
    assert_eq!(account.serialized_len_within(44), None);
    assert!(account.fits());
    assert!(account.has_room_for(&record(&"x".repeat(910), "", 0, 0)));
    assert!(!account.has_room_for(&record(&"x".repeat(911), "", 0, 0)));
    account.products.push(record(&"x".repeat(911), "", 0, 0));
    assert_eq!(account.serialized_len_within(usize::MAX), Some(1009));
    assert!(!account.fits());
    assert!(!account.has_room_for(&record("", "", 0, 0)));
}

#[test]
fn clones_keep_every_field() {
    let mut account = StoreAccount::new(99);
    account.products.push(record("Yoghurt", "2", 10, 1000));
    let copy = account.clone();
    assert_eq!(copy.bump, 99);
    assert_eq!(copy.products.len(), 1);
    let first = copy.products[0].clone();
    assert_eq!(first.item, "Yoghurt");
    assert_eq!(first.price, "2");
    assert_eq!(first.quantity, 10);
    assert_eq!(first.entrydate, 1000);
}

#[test]
fn every_error_has_its_message() {
    assert_eq!(ErrorCode::NoProducts.message(), "No Products in Store.");
    let all = [
        ErrorCode::NoProducts,
        ErrorCode::SlotAlreadyExists,
        ErrorCode::SlotNotFound,
        ErrorCode::AddressMismatch,
        ErrorCode::StorageExhausted,
    ];
    for (i, a) in all.iter().enumerate() {
        assert!(!a.message().is_empty());
        for (j, b) in all.iter().enumerate() {
            assert_eq!(a == b, i == j);
            assert_eq!(a.message() == b.message(), i == j);
        }
    }
}

#[test]
fn account_size_agrees_with_the_borsh_layout() {
    let texts = ["", "2", "Yoghurt", "Käse", "牛乳 1L", "a longer product name, with spaces"];
    let mut account = StoreAccount::new(254);
    let mut plain: Vec<(String, String, i64, i64)> = Vec::new();
    for (k, item) in texts.iter().enumerate() {
        for price in texts.iter() {
            let quantity = k as i64 - 3;
            let entrydate = 1_700_000_000 + k as i64;
            account.products.push(record(item, price, quantity, entrydate));
            plain.push((item.to_string(), price.to_string(), quantity, entrydate));
            let bytes = anchor_lang::prelude::borsh::to_vec(&(plain.clone(), 254u8)).unwrap();
            assert_eq!(
                account.serialized_len_within(usize::MAX),
                Some(HEADER_LEN + bytes.len())
            );
            let one = anchor_lang::prelude::borsh::to_vec(plain.last().unwrap()).unwrap();
            assert_eq!(
                account.products.last().unwrap().encoded_len_within(usize::MAX),
                Some(one.len())
            );
        }
    }
    assert_eq!(account.products.len(), 36);
}
