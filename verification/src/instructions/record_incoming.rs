//! Appending a record.

use vstd::prelude::*;

use crate::errors::ErrorCode;
use crate::locator::Key;
use crate::state::store::{Store, StoreView};
use crate::state::store_account::{StoreAccount, StoreAccountView};

verus! {

/// The accounts of a call that appends a record.
#[derive(Debug)]
pub struct RecordIncoming {
    /// The account of the owner's slot.
    pub store_account: StoreAccount,
    /// The owner, who authorised the call.
    pub user: Key,
}

/// What appending `record` makes of an account: the account with the record
/// at its end, or `StorageExhausted` where that would no longer fit into the
/// slot.
pub open spec fn appended(account: StoreAccountView, record: StoreView) -> Result<
    StoreAccountView,
    ErrorCode,
> {
    if account.append(record).fits() {
        Ok(account.append(record))
    } else {
        Err(ErrorCode::StorageExhausted)
    }
}

/// Records an incoming product at the end of the slot. The four fields are
/// stored as given, and the records already there stay as they are. Where
/// the record does not fit, nothing changes.
pub fn record_incoming(
    ctx: &mut RecordIncoming,
    item: String,
    price: String,
    quantity: i64,
    entrydate: i64,
) -> (outcome: Result<(), ErrorCode>)
    ensures
        final(ctx).user == old(ctx).user,
        match appended(
            old(ctx).store_account@,
            StoreView { item: item@, price: price@, quantity, entrydate },
        ) {
            Ok(account) => {
                &&& outcome == Ok::<(), ErrorCode>(())
                &&& final(ctx).store_account@ == account
                &&& final(ctx).store_account@.products.len() == old(ctx).store_account@.products.len()
                    + 1
            },
            Err(error) => outcome == Err::<(), ErrorCode>(error) && *final(ctx) == *old(ctx),
        },
{
    let store = Store { item, price, quantity, entrydate };
    if !ctx.store_account.has_room_for(&store) {
        return Err(ErrorCode::StorageExhausted);
    }
    ctx.store_account.products.push(store);
    assert(ctx.store_account@.products =~= old(ctx).store_account@.products.push(store@));
    Ok(())
}

} // verus!
