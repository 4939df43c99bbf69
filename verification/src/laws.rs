//! What holds of the store across calls, proved from the definitions of its
//! operations.

use vstd::prelude::*;

use crate::errors::ErrorCode;
use crate::instructions::check_store::listed;
use crate::locator::{derived, locator_view, Locator};
use crate::program::LedgerView;
use crate::state::store::StoreView;
use crate::state::store_account::StoreAccountView;

verus! {

/// The ledger after a run of appends to one owner's slot, each made on the
/// ledger that the one before left, or the first failure among them.
pub open spec fn append_all(ledger: LedgerView, owner: Seq<u8>, records: Seq<StoreView>) -> Result<
    LedgerView,
    ErrorCode,
>
    decreases records.len(),
{
    if records.len() == 0 {
        Ok(ledger)
    } else {
        match append_all(ledger, owner, records.drop_last()) {
            Ok(so_far) => so_far.append(owner, records.last()),
            Err(error) => Err(error),
        }
    }
}

/// A slot that was just created lists as holding no products.
pub proof fn created_slot_lists_no_products(ledger: LedgerView, owner: Seq<u8>, bump: u8)
    ensures
        ledger.create(owner, bump) matches Ok(created) ==> created.list(owner) == Err::<
            Seq<StoreView>,
            ErrorCode,
        >(ErrorCode::NoProducts),
{
}

/// An append that succeeds adds exactly one record, at the end of the
/// owner's slot: the slot is one record longer, the records that were there
/// are untouched, every other slot is as it was, and the owner is let in
/// again afterwards.
pub proof fn append_adds_one_record(ledger: LedgerView, owner: Seq<u8>, record: StoreView)
    ensures
        ledger.append(owner, record) matches Ok(after) ==> {
            &&& ledger.resolve(owner) matches Ok(address)
            &&& after.resolve(owner) == ledger.resolve(owner)
            &&& after.slots[address].products == ledger.slots[address].products.push(record)
            &&& after.slots[address].products.len() == ledger.slots[address].products.len() + 1
            &&& after.slots[address].bump == ledger.slots[address].bump
            &&& after.slots.remove(address) == ledger.slots.remove(address)
            &&& after.program_id == ledger.program_id
        },
{
    if let Ok(after) = ledger.append(owner, record) {
        let address = ledger.resolve(owner)->Ok_0;
        assert(after.slots.remove(address) =~= ledger.slots.remove(address));
    }
}

/// After a run of appends that all succeed, the owner's slot holds the
/// records it held before followed by the appended ones, in the order of the
/// calls and each with its four fields as given, and lists them so. (It
/// lists nothing only where it was empty and the run was.)
pub proof fn appended_records_are_listed_in_order(
    ledger: LedgerView,
    owner: Seq<u8>,
    records: Seq<StoreView>,
)
    ensures
        append_all(ledger, owner, records) matches Ok(after) ==> (ledger.resolve(owner) matches Ok(
            address,
        ) ==> {
            &&& after.resolve(owner) == ledger.resolve(owner)
            &&& after.slots[address].products == ledger.slots[address].products + records
            &&& after.list(owner) == listed(
                StoreAccountView {
                    products: ledger.slots[address].products + records,
                    bump: ledger.slots[address].bump,
                },
            )
        }),
        append_all(ledger, owner, records) is Ok && records.len() > 0 ==> ledger.resolve(owner) is Ok,
    decreases records.len(),
{
    if let Ok(after) = append_all(ledger, owner, records) {
        if records.len() == 0 {
            if let Ok(address) = ledger.resolve(owner) {
                assert(ledger.slots[address].products + records =~= ledger.slots[address].products);
            }
        } else {
            let so_far = append_all(ledger, owner, records.drop_last())->Ok_0;
            appended_records_are_listed_in_order(ledger, owner, records.drop_last());
            append_adds_one_record(so_far, owner, records.last());
            if records.len() == 1 {
                assert(records.drop_last().len() == 0);
                assert(so_far == ledger);
            }
            let address = ledger.resolve(owner)->Ok_0;
            assert((ledger.slots[address].products + records.drop_last()).push(records.last())
                =~= ledger.slots[address].products + records);
        }
    }
}

/// After a slot is created and a run of appends to it all succeed, the slot
/// lists exactly the appended records, in the order of the calls, or no
/// products where the run was empty.
pub proof fn appends_to_created_slot_are_listed_exactly(
    ledger: LedgerView,
    owner: Seq<u8>,
    bump: u8,
    records: Seq<StoreView>,
)
    ensures
        ledger.create(owner, bump) matches Ok(created) ==> (append_all(
            created,
            owner,
            records,
        ) matches Ok(after) ==> after.list(owner) == (if records.len() == 0 {
            Err::<Seq<StoreView>, ErrorCode>(ErrorCode::NoProducts)
        } else {
            Ok::<Seq<StoreView>, ErrorCode>(records)
        })),
{
    if let Ok(created) = ledger.create(owner, bump) {
        appended_records_are_listed_in_order(created, owner, records);
        if let Ok(after) = append_all(created, owner, records) {
            let address = created.resolve(owner)->Ok_0;
            assert(created.slots[address].products + records =~= records);
        }
    }
}

/// A call that changes the ledger only adds to it: every slot that was
/// there is still there, with the bump it was created with and with the
/// records it held still first and in their order.
pub open spec fn grown_from(after: LedgerView, before: LedgerView) -> bool {
    &&& after.program_id == before.program_id
    &&& forall|address: Seq<u8>| #[trigger]
        before.slots.dom().contains(address) ==> {
            &&& after.slots.dom().contains(address)
            &&& after.slots[address].bump == before.slots[address].bump
            &&& before.slots[address].products.is_prefix_of(after.slots[address].products)
        }
}

/// Creating a slot leaves every other slot as it was.
pub proof fn create_only_adds(ledger: LedgerView, owner: Seq<u8>, bump: u8)
    ensures
        ledger.create(owner, bump) matches Ok(after) ==> grown_from(after, ledger),
{
}

/// Appending a record keeps every slot's bump and earlier records.
pub proof fn append_only_adds(ledger: LedgerView, owner: Seq<u8>, record: StoreView)
    ensures
        ledger.append(owner, record) matches Ok(after) ==> grown_from(after, ledger),
{
}

/// Creating a slot for an owner whose address already holds one is refused
/// with `SlotAlreadyExists`, whatever the bump.
pub proof fn create_on_existing_slot_is_refused(ledger: LedgerView, owner: Seq<u8>, bump: u8)
    requires
        ledger.holds_slot_of(owner),
    ensures
        ledger.create(owner, bump) == Err::<LedgerView, ErrorCode>(ErrorCode::SlotAlreadyExists),
{
}

/// Two derivations for the same program and owner give the same address and
/// the same bump.
pub proof fn derivation_is_deterministic(
    program_id: Seq<u8>,
    owner: Seq<u8>,
    first: Option<Locator>,
    second: Option<Locator>,
)
    requires
        locator_view(first) == derived(program_id, owner),
        locator_view(second) == derived(program_id, owner),
    ensures
        first == second,
{
    if let Some(a) = first {
        let b = second->Some_0;
        assert(a.address.bytes@ =~= b.address.bytes@);
        assert(a.address.bytes == b.address.bytes);
    }
}

} // verus!
