//! Creating a slot.

use vstd::prelude::*;

use crate::errors::ErrorCode;
use crate::locator::Key;
use crate::state::store_account::{StoreAccount, StoreAccountView};

verus! {

/// The accounts of a call that creates a slot.
#[derive(Debug)]
pub struct Initialize {
    /// The freshly allocated account of the slot.
    pub store_account: StoreAccount,
    /// The owner, who authorised the call and pays for the slot.
    pub user: Key,
}

/// Sets up a new slot: no records, and the bump it was derived with.
pub fn initialize(ctx: &mut Initialize, bump: u8) -> (outcome: Result<(), ErrorCode>)
    ensures
        outcome == Ok::<(), ErrorCode>(()),
        final(ctx).store_account@ == StoreAccountView::empty(bump),
        final(ctx).user == old(ctx).user,
{
    ctx.store_account.products = Vec::new();
    ctx.store_account.bump = bump;
    assert(ctx.store_account@.products =~= Seq::empty());
    Ok(())
}

} // verus!
