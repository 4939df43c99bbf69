//! Listing the records.

use vstd::prelude::*;

use crate::errors::ErrorCode;
use crate::locator::Key;
use crate::state::store::{Store, StoreView};
use crate::state::store_account::{records_of, StoreAccount, StoreAccountView};

verus! {

/// The accounts of a call that lists the records.
#[derive(Debug)]
pub struct CheckStore {
    /// The account of the owner's slot.
    pub store_account: StoreAccount,
    /// The owner, who authorised the call.
    pub user: Key,
}

/// What listing an account gives: its records in the order they were
/// appended, or `NoProducts` where it has none.
pub open spec fn listed(account: StoreAccountView) -> Result<Seq<StoreView>, ErrorCode> {
    if account.products.len() == 0 {
        Err(ErrorCode::NoProducts)
    } else {
        Ok(account.products)
    }
}

/// The records of an optional listing, each as a mathematical value.
pub open spec fn listing_view(listing: Result<Vec<Store>, ErrorCode>) -> Result<
    Seq<StoreView>,
    ErrorCode,
> {
    match listing {
        Ok(products) => Ok(records_of(products@)),
        Err(error) => Err(error),
    }
}

/// Returns a copy of all records of the slot, oldest first.
pub fn check_store(ctx: &CheckStore) -> (outcome: Result<Vec<Store>, ErrorCode>)
    ensures
        listing_view(outcome) == listed(ctx.store_account@),
{
    if ctx.store_account.products.len() == 0 {
        return Err(ErrorCode::NoProducts);
    }
    let products = ctx.store_account.products.clone();
    assert(records_of(products@) =~= ctx.store_account@.products);
    Ok(products)
}

} // verus!
