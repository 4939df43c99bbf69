//! The store as its callers see it: one slot per owner, reached through the
//! address derived for the owner, and the three entry points that create a
//! slot, append to it and list it.

use vstd::prelude::*;

use crate::errors::ErrorCode;
use crate::instructions;
use crate::instructions::check_store::{listed, listing_view, CheckStore};
use crate::instructions::initialize::Initialize;
use crate::instructions::record_incoming::{appended, RecordIncoming};
use crate::locator;
use crate::locator::{
    admission_to_create, admission_to_slot, admit_access, admit_create, derive_with_bump, derived,
    key_view, locator_view, rederived, Key, Locator,
};
use crate::state::store::{Store, StoreView};
use crate::state::store_account::{StoreAccount, StoreAccountView};

verus! {

/// An allocated slot: its address and the account kept there.
struct Slot {
    address: Key,
    account: StoreAccount,
}

/// The slots allocated under one program. No two slots share an address,
/// and every account fits into the fixed size of a slot.
pub struct Ledger {
    program_id: Key,
    slots: Vec<Slot>,
}

/// A ledger as a mathematical value: the program's identifier and the
/// account at each allocated address.
pub struct LedgerView {
    pub program_id: Seq<u8>,
    pub slots: Map<Seq<u8>, StoreAccountView>,
}

/// Whether some slot of the sequence lies at `address`.
spec fn allocated(slots: Seq<Slot>, address: Seq<u8>) -> bool {
    exists|i: int| 0 <= i < slots.len() && #[trigger] slots[i].address@ == address
}

/// Whether no two slots of the sequence share an address.
spec fn distinct(slots: Seq<Slot>) -> bool {
    forall|i: int, j: int|
        0 <= i < slots.len() && 0 <= j < slots.len() && i != j ==> #[trigger] slots[i].address@
            != #[trigger] slots[j].address@
}

/// The account at each address of a sequence of slots.
spec fn slot_map(slots: Seq<Slot>) -> Map<Seq<u8>, StoreAccountView> {
    Map::new(
        |address: Seq<u8>| allocated(slots, address),
        |address: Seq<u8>|
            slots[choose|i: int| 0 <= i < slots.len() && #[trigger] slots[i].address@
                == address].account@,
    )
}

/// In a sequence without shared addresses, the map gives for the address of
/// each slot that slot's account.
proof fn lemma_slot_map_at(slots: Seq<Slot>, i: int)
    requires
        distinct(slots),
        0 <= i < slots.len(),
    ensures
        slot_map(slots).dom().contains(slots[i].address@),
        slot_map(slots)[slots[i].address@] == slots[i].account@,
{
    let address = slots[i].address@;
    let k = choose|k: int| 0 <= k < slots.len() && #[trigger] slots[k].address@ == address;
    assert(k == i);
}

/// A slot added at a fresh address adds one entry to the map.
proof fn lemma_slot_map_push(slots: Seq<Slot>, slot: Slot)
    requires
        distinct(slots),
        !allocated(slots, slot.address@),
    ensures
        distinct(slots.push(slot)),
        slot_map(slots.push(slot)) == slot_map(slots).insert(slot.address@, slot.account@),
{
    let after = slots.push(slot);
    assert(distinct(after)) by {
        assert forall|i: int, j: int|
            0 <= i < after.len() && 0 <= j < after.len() && i != j implies #[trigger] after[i].address@
            != #[trigger] after[j].address@ by {
            if i < slots.len() && j < slots.len() {
                assert(slots[i].address@ != slots[j].address@);
            } else if i < slots.len() {
                assert(slots[i].address@ != slot.address@);
            } else {
                assert(slots[j].address@ != slot.address@);
            }
        }
    }
    let expected = slot_map(slots).insert(slot.address@, slot.account@);
    assert forall|address: Seq<u8>| #[trigger]
        slot_map(after).dom().contains(address) implies expected.dom().contains(address) by {
        let k = choose|k: int| 0 <= k < after.len() && #[trigger] after[k].address@ == address;
        if k < slots.len() {
            assert(slots[k].address@ == address);
        }
    }
    assert forall|address: Seq<u8>| #[trigger]
        expected.dom().contains(address) implies slot_map(after).dom().contains(address)
        && slot_map(after)[address] == expected[address] by {
        if address == slot.address@ {
            assert(after[slots.len() as int].address@ == address);
            lemma_slot_map_at(after, slots.len() as int);
        } else {
            let k = choose|k: int| 0 <= k < slots.len() && #[trigger] slots[k].address@ == address;
            assert(after[k].address@ == address);
            lemma_slot_map_at(after, k);
            lemma_slot_map_at(slots, k);
        }
    }
    assert(slot_map(after) =~= expected);
}

/// A slot replaced by one at the same address replaces one entry of the map.
proof fn lemma_slot_map_update(slots: Seq<Slot>, i: int, slot: Slot)
    requires
        distinct(slots),
        0 <= i < slots.len(),
        slot.address@ == slots[i].address@,
    ensures
        distinct(slots.update(i, slot)),
        slot_map(slots.update(i, slot)) == slot_map(slots).insert(slot.address@, slot.account@),
{
    let after = slots.update(i, slot);
    assert(distinct(after)) by {
        assert forall|a: int, b: int|
            0 <= a < after.len() && 0 <= b < after.len() && a != b implies #[trigger] after[a].address@
            != #[trigger] after[b].address@ by {
            assert(after[a].address@ == slots[a].address@);
            assert(after[b].address@ == slots[b].address@);
        }
    }
    let expected = slot_map(slots).insert(slot.address@, slot.account@);
    assert forall|address: Seq<u8>| #[trigger]
        slot_map(after).dom().contains(address) implies expected.dom().contains(address) by {
        let k = choose|k: int| 0 <= k < after.len() && #[trigger] after[k].address@ == address;
        assert(slots[k].address@ == address);
    }
    assert forall|address: Seq<u8>| #[trigger]
        expected.dom().contains(address) implies slot_map(after).dom().contains(address)
        && slot_map(after)[address] == expected[address] by {
        if address == slot.address@ {
            assert(after[i].address@ == address);
            lemma_slot_map_at(after, i);
        } else {
            let k = choose|k: int| 0 <= k < slots.len() && #[trigger] slots[k].address@ == address;
            assert(after[k].address@ == address);
            lemma_slot_map_at(after, k);
            lemma_slot_map_at(slots, k);
        }
    }
    assert(slot_map(after) =~= expected);
}

/// Where every slot of a sequence fits into the fixed size, so does every
/// account of its map.
proof fn lemma_slot_map_fits(slots: Seq<Slot>)
    requires
        forall|i: int| 0 <= i < slots.len() ==> (#[trigger] slots[i]).account@.fits(),
    ensures
        forall|address: Seq<u8>| #[trigger]
            slot_map(slots).dom().contains(address) ==> slot_map(slots)[address].fits(),
{
    assert forall|address: Seq<u8>| #[trigger]
        slot_map(slots).dom().contains(address) implies slot_map(slots)[address].fits() by {
        let k = choose|k: int| 0 <= k < slots.len() && #[trigger] slots[k].address@ == address;
        assert(slots[k].account@.fits());
    }
}

impl View for Ledger {
    type V = LedgerView;

    closed spec fn view(&self) -> LedgerView {
        LedgerView { program_id: self.program_id@, slots: slot_map(self.slots@) }
    }
}

impl LedgerView {
    /// The ledger of a program under which no slot is allocated yet.
    pub open spec fn empty(program_id: Seq<u8>) -> LedgerView {
        LedgerView { program_id, slots: Map::empty() }
    }

    /// The ledger with `account` at `address` and every other slot as it is.
    pub open spec fn with_slot(self, address: Seq<u8>, account: StoreAccountView) -> LedgerView {
        LedgerView { program_id: self.program_id, slots: self.slots.insert(address, account) }
    }

    /// Whether every account fits into the fixed size of a slot.
    pub open spec fn within_capacity(self) -> bool {
        forall|address: Seq<u8>| #[trigger]
            self.slots.dom().contains(address) ==> self.slots[address].fits()
    }

    /// Whether a slot is allocated at a derived address.
    pub open spec fn occupied(self, located: Option<(Seq<u8>, u8)>) -> bool {
        match located {
            Some((address, _)) => self.slots.dom().contains(address),
            None => false,
        }
    }

    /// Whether a slot is allocated at the address derived for `owner`.
    pub open spec fn holds_slot_of(self, owner: Seq<u8>) -> bool {
        self.occupied(derived(self.program_id, owner))
    }

    /// The bump kept in the slot at a derived address, where a slot is there.
    pub open spec fn stored_bump(self, located: Option<(Seq<u8>, u8)>) -> Option<u8> {
        match located {
            Some((address, _)) => if self.slots.dom().contains(address) {
                Some(self.slots[address].bump)
            } else {
                None
            },
            None => None,
        }
    }

    /// What creating a slot decides, given the owner's derived address and
    /// the address that the claimed bump gives: the ledger with a new, empty
    /// slot where the guard lets the call through.
    pub open spec fn create_at(
        self,
        located: Option<(Seq<u8>, u8)>,
        claimed: Option<Seq<u8>>,
        bump: u8,
    ) -> Result<LedgerView, ErrorCode> {
        match admission_to_create(located, self.occupied(located), claimed) {
            Ok(address) => Ok(self.with_slot(address, StoreAccountView::empty(bump))),
            Err(error) => Err(error),
        }
    }

    /// What the address guard decides for a call on an existing slot, given
    /// the owner's derived address and the address that the stored bump
    /// gives: the address of the slot, or why the call is turned away.
    pub open spec fn access_at(self, located: Option<(Seq<u8>, u8)>, claimed: Option<Seq<u8>>) -> Result<
        Seq<u8>,
        ErrorCode,
    > {
        admission_to_slot(located, self.occupied(located), claimed)
    }

    /// What appending decides, given the two derivations.
    pub open spec fn append_at(
        self,
        located: Option<(Seq<u8>, u8)>,
        claimed: Option<Seq<u8>>,
        record: StoreView,
    ) -> Result<LedgerView, ErrorCode> {
        match self.access_at(located, claimed) {
            Err(error) => Err(error),
            Ok(address) => match appended(self.slots[address], record) {
                Err(error) => Err(error),
                Ok(account) => Ok(self.with_slot(address, account)),
            },
        }
    }

    /// What listing decides, given the two derivations.
    pub open spec fn list_at(self, located: Option<(Seq<u8>, u8)>, claimed: Option<Seq<u8>>) -> Result<
        Seq<StoreView>,
        ErrorCode,
    > {
        match self.access_at(located, claimed) {
            Err(error) => Err(error),
            Ok(address) => listed(self.slots[address]),
        }
    }

    /// The address that the owner's seeds give with the bump kept in the
    /// owner's slot, where there is such a slot.
    pub open spec fn claim(self, owner: Seq<u8>) -> Option<Seq<u8>> {
        match self.stored_bump(derived(self.program_id, owner)) {
            Some(bump) => rederived(self.program_id, owner, bump),
            None => None,
        }
    }

    /// Creating the owner's slot with a claimed bump: the ledger with the
    /// new, empty slot, or why there is none.
    pub open spec fn create(self, owner: Seq<u8>, bump: u8) -> Result<LedgerView, ErrorCode> {
        self.create_at(
            derived(self.program_id, owner),
            rederived(self.program_id, owner, bump),
            bump,
        )
    }

    /// The address of the owner's slot, where the guard lets the owner in.
    pub open spec fn resolve(self, owner: Seq<u8>) -> Result<Seq<u8>, ErrorCode> {
        self.access_at(derived(self.program_id, owner), self.claim(owner))
    }

    /// Appending a record to the owner's slot: the ledger with the longer
    /// slot, or why nothing was appended.
    pub open spec fn append(self, owner: Seq<u8>, record: StoreView) -> Result<
        LedgerView,
        ErrorCode,
    > {
        self.append_at(derived(self.program_id, owner), self.claim(owner), record)
    }

    /// Listing the owner's slot: its records, oldest first, or why there is
    /// no listing.
    pub open spec fn list(self, owner: Seq<u8>) -> Result<Seq<StoreView>, ErrorCode> {
        self.list_at(derived(self.program_id, owner), self.claim(owner))
    }
}

/// The outcome of a call that changes the ledger, held against what the
/// call was to decide: on success the ledger is the decided one, on failure
/// it is the one before the call.
pub open spec fn committed(
    before: LedgerView,
    decision: Result<LedgerView, ErrorCode>,
    outcome: Result<(), ErrorCode>,
    after: LedgerView,
) -> bool {
    match decision {
        Ok(next) => outcome == Ok::<(), ErrorCode>(()) && after == next,
        Err(error) => outcome == Err::<(), ErrorCode>(error) && after == before,
    }
}

impl Ledger {
    #[verifier::type_invariant]
    spec fn well_formed(self) -> bool {
        &&& distinct(self.slots@)
        &&& forall|i: int| 0 <= i < self.slots.len() ==> (#[trigger] self.slots[i]).account@.fits()
    }

    /// A ledger for `program_id` with no slot allocated.
    pub fn new(program_id: Key) -> (ledger: Ledger)
        ensures
            ledger@ == LedgerView::empty(program_id@),
            ledger@.within_capacity(),
    {
        let ledger = Ledger { program_id, slots: Vec::new() };
        assert(ledger@.slots =~= Map::empty());
        ledger
    }

    /// The identifier of the program that the slots belong to.
    pub fn program_id(&self) -> (program_id: Key)
        ensures
            program_id@ == self@.program_id,
    {
        self.program_id
    }

    /// Looks for the slot at `address`.
    fn find(&self, address: &Key) -> (found: Option<usize>)
        ensures
            match found {
                Some(i) => i < self.slots.len() && self.slots[i as int].address@ == address@,
                None => !allocated(self.slots@, address@),
            },
    {
        let mut i: usize = 0;
        while i < self.slots.len()
            invariant
                i <= self.slots.len(),
                forall|j: int| 0 <= j < i ==> (#[trigger] self.slots[j]).address@ != address@,
            decreases self.slots.len() - i,
        {
            if self.slots[i].address.same(address) {
                return Some(i);
            }
            i += 1;
        }
        None
    }

    /// Looks for the slot at a derived address.
    fn find_located(&self, located: &Option<Locator>) -> (found: Option<usize>)
        ensures
            found is Some == self@.occupied(locator_view(*located)),
            found matches Some(i) ==> {
                &&& i < self.slots.len()
                &&& located matches Some(l)
                &&& self.slots[i as int].address@ == l.address@
            },
    {
        match located {
            Some(locator) => self.find(&locator.address),
            None => None,
        }
    }

    /// Tells whether a slot is allocated at `address`.
    pub fn has_slot(&self, address: &Key) -> (allocated: bool)
        ensures
            allocated == self@.slots.dom().contains(address@),
    {
        self.find(address).is_some()
    }

    /// Returns a copy of the account at `address`, if a slot is there.
    pub fn account_at(&self, address: &Key) -> (account: Option<StoreAccount>)
        ensures
            match account {
                Some(account) => self@.slots.dom().contains(address@) && account@
                    == self@.slots[address@],
                None => !self@.slots.dom().contains(address@),
            },
    {
        proof {
            use_type_invariant(self);
        }
        match self.find(address) {
            Some(i) => {
                proof {
                    lemma_slot_map_at(self.slots@, i as int);
                }
                Some(self.slots[i].account.clone())
            },
            None => None,
        }
    }

    /// Returns the bump kept in the slot at a derived address, if a slot is
    /// there.
    pub fn stored_bump(&self, located: &Option<Locator>) -> (bump: Option<u8>)
        ensures
            bump == self@.stored_bump(locator_view(*located)),
    {
        proof {
            use_type_invariant(self);
        }
        match located {
            Some(locator) => match self.find(&locator.address) {
                Some(i) => {
                    proof {
                        lemma_slot_map_at(self.slots@, i as int);
                    }
                    Some(self.slots[i].account.bump)
                },
                None => None,
            },
            None => None,
        }
    }

    /// Derives the address that the owner's seeds give with the bump kept in
    /// the owner's slot, for the guard to hold against the slot's address.
    pub fn claim(&self, located: &Option<Locator>, user: &Key) -> (claimed: Option<Key>)
        ensures
            key_view(claimed) == match self@.stored_bump(locator_view(*located)) {
                Some(bump) => rederived(self@.program_id, user@, bump),
                None => None,
            },
    {
        match self.stored_bump(located) {
            Some(bump) => derive_with_bump(&self.program_id, user, bump),
            None => None,
        }
    }

    /// Creates the owner's slot, given the owner's derived address and the
    /// address that the claimed bump gives.
    pub fn create_slot(
        &mut self,
        located: &Option<Locator>,
        claimed: &Option<Key>,
        user: &Key,
        bump: u8,
    ) -> (outcome: Result<(), ErrorCode>)
        ensures
            committed(
                old(self)@,
                old(self)@.create_at(locator_view(*located), key_view(*claimed), bump),
                outcome,
                final(self)@,
            ),
            final(self)@.within_capacity(),
    {
        proof {
            use_type_invariant(&*self);
            lemma_slot_map_fits(self.slots@);
        }
        let occupied = self.find_located(located).is_some();
        let address = match admit_create(located, occupied, claimed) {
            Ok(address) => address,
            Err(error) => {
                return Err(error);
            },
        };
        let mut ctx = Initialize { store_account: StoreAccount::new(0), user: *user };
        match instructions::initialize(&mut ctx, bump) {
            Ok(()) => {},
            Err(error) => {
                return Err(error);
            },
        }
        let slot = Slot { address, account: ctx.store_account };
        proof {
            lemma_slot_map_push(self.slots@, slot);
        }
        let mut slots: Vec<Slot> = Vec::new();
        std::mem::swap(&mut slots, &mut self.slots);
        slots.push(slot);
        self.slots = slots;
        proof {
            lemma_slot_map_fits(self.slots@);
        }
        Ok(())
    }

    /// Appends a record to the owner's slot, given the owner's derived
    /// address and the address that the stored bump gives.
    pub fn append_to_slot(
        &mut self,
        located: &Option<Locator>,
        claimed: &Option<Key>,
        user: &Key,
        item: String,
        price: String,
        quantity: i64,
        entrydate: i64,
    ) -> (outcome: Result<(), ErrorCode>)
        ensures
            committed(
                old(self)@,
                old(self)@.append_at(
                    locator_view(*located),
                    key_view(*claimed),
                    StoreView { item: item@, price: price@, quantity, entrydate },
                ),
                outcome,
                final(self)@,
            ),
            final(self)@.within_capacity(),
    {
        proof {
            use_type_invariant(&*self);
            lemma_slot_map_fits(self.slots@);
        }
        let i = match self.enter(located, claimed) {
            Ok(i) => i,
            Err(error) => {
                return Err(error);
            },
        };
        let address = self.slots[i].address;
        let mut ctx = RecordIncoming { store_account: self.slots[i].account.clone(), user: *user };
        match instructions::record_incoming(&mut ctx, item, price, quantity, entrydate) {
            Ok(()) => {},
            Err(error) => {
                return Err(error);
            },
        }
        let slot = Slot { address, account: ctx.store_account };
        proof {
            lemma_slot_map_update(self.slots@, i as int, slot);
        }
        let mut slots: Vec<Slot> = Vec::new();
        std::mem::swap(&mut slots, &mut self.slots);
        slots.set(i, slot);
        self.slots = slots;
        proof {
            lemma_slot_map_fits(self.slots@);
        }
        Ok(())
    }

    /// Lists the owner's slot, given the owner's derived address and the
    /// address that the stored bump gives.
    pub fn list_slot(&self, located: &Option<Locator>, claimed: &Option<Key>, user: &Key) -> (outcome:
        Result<Vec<Store>, ErrorCode>)
        ensures
            listing_view(outcome) == self@.list_at(locator_view(*located), key_view(*claimed)),
    {
        let i = match self.enter(located, claimed) {
            Ok(i) => i,
            Err(error) => {
                return Err(error);
            },
        };
        let ctx = CheckStore { store_account: self.slots[i].account.clone(), user: *user };
        instructions::check_store(&ctx)
    }

    /// The address guard for a call on an existing slot: finds the slot at
    /// the derived address and holds the claimed derivation against it.
    fn enter(&self, located: &Option<Locator>, claimed: &Option<Key>) -> (entered: Result<
        usize,
        ErrorCode,
    >)
        ensures
            match entered {
                Ok(i) => {
                    &&& i < self.slots.len()
                    &&& self@.access_at(locator_view(*located), key_view(*claimed)) == Ok::<
                        Seq<u8>,
                        ErrorCode,
                    >(self.slots[i as int].address@)
                    &&& self@.slots[self.slots[i as int].address@] == self.slots[i as int].account@
                },
                Err(error) => self@.access_at(locator_view(*located), key_view(*claimed)) == Err::<
                    Seq<u8>,
                    ErrorCode,
                >(error),
            },
    {
        proof {
            use_type_invariant(self);
        }
        let found = self.find_located(located);
        match admit_access(located, found.is_some(), claimed) {
            Ok(_) => {
                let i = found.unwrap();
                proof {
                    lemma_slot_map_at(self.slots@, i as int);
                }
                Ok(i)
            },
            Err(error) => Err(error),
        }
    }
}

/// Creates the slot of `user` with the bump that the caller claims for it.
/// `user` is the owner as the host has authenticated it.
///
/// Fails with `SlotAlreadyExists` where the owner's address already holds a
/// slot, and with `AddressMismatch` where the bump does not derive that
/// address. A failed call leaves the ledger as it was.
pub fn initialize(ledger: &mut Ledger, user: &Key, bump: u8) -> (outcome: Result<(), ErrorCode>)
    ensures
        committed(old(ledger)@, old(ledger)@.create(user@, bump), outcome, final(ledger)@),
        old(ledger)@.holds_slot_of(user@) ==> outcome == Err::<(), ErrorCode>(
            ErrorCode::SlotAlreadyExists,
        ) && final(ledger)@ == old(ledger)@,
        final(ledger)@.within_capacity(),
{
    let program_id = ledger.program_id();
    let located = locator::derive(&program_id, user);
    let claimed = derive_with_bump(&program_id, user, bump);
    ledger.create_slot(&located, &claimed, user, bump)
}

/// Appends a record to the slot of `user`, the owner as the host has
/// authenticated it.
///
/// Fails with `SlotNotFound` where the owner has no slot, with
/// `AddressMismatch` where the stored bump does not derive the slot's
/// address, and with `StorageExhausted` where the record does not fit. A
/// failed call leaves the ledger as it was.
pub fn record_incoming(
    ledger: &mut Ledger,
    user: &Key,
    item: String,
    price: String,
    quantity: i64,
    entrydate: i64,
) -> (outcome: Result<(), ErrorCode>)
    ensures
        committed(
            old(ledger)@,
            old(ledger)@.append(
                user@,
                StoreView { item: item@, price: price@, quantity, entrydate },
            ),
            outcome,
            final(ledger)@,
        ),
        final(ledger)@.within_capacity(),
{
    let program_id = ledger.program_id();
    let located = locator::derive(&program_id, user);
    let claimed = ledger.claim(&located, user);
    ledger.append_to_slot(&located, &claimed, user, item, price, quantity, entrydate)
}

/// Lists the records in the slot of `user`, the owner as the host has
/// authenticated it, oldest first.
///
/// Fails with `SlotNotFound` where the owner has no slot, with
/// `AddressMismatch` where the stored bump does not derive the slot's
/// address, and with `NoProducts` where the slot holds no record.
pub fn check_store(ledger: &Ledger, user: &Key) -> (outcome: Result<Vec<Store>, ErrorCode>)
    ensures
        listing_view(outcome) == ledger@.list(user@),
{
    let program_id = ledger.program_id();
    let located = locator::derive(&program_id, user);
    let claimed = ledger.claim(&located, user);
    ledger.list_slot(&located, &claimed, user)
}

} // verus!
