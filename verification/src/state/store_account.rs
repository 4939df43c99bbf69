//! The account behind a slot.

use vstd::prelude::*;

use crate::state::store::{Store, StoreView};

verus! {

/// The bytes at the head of a slot that mark what kind of account it holds.
pub const HEADER_LEN: usize = 8;

/// The bytes reserved in a slot beyond its header.
pub const PAYLOAD_RESERVE: usize = 1000;

/// The fixed size of a slot.
pub const ACCOUNT_SPACE: usize = HEADER_LEN + PAYLOAD_RESERVE;

/// The bytes that give the number of records.
pub const COUNT_WIDTH: usize = 4;

/// The bytes of the bump.
pub const BUMP_WIDTH: usize = 1;

/// What a slot holds: the records in the order they were appended, and the
/// bump byte that was fixed when the slot was created.
#[derive(Debug)]
pub struct StoreAccount {
    pub products: Vec<Store>,
    pub bump: u8,
}

/// An account as a mathematical value.
pub struct StoreAccountView {
    pub products: Seq<StoreView>,
    pub bump: u8,
}

/// The records of a vector, each as a mathematical value.
pub open spec fn records_of(products: Seq<Store>) -> Seq<StoreView> {
    products.map_values(|record: Store| record@)
}

/// The bytes that a sequence of records takes, one after the other.
pub open spec fn records_len(records: Seq<StoreView>) -> nat
    decreases records.len(),
{
    if records.len() == 0 {
        0
    } else {
        records_len(records.drop_last()) + records.last().encoded_len()
    }
}

impl View for StoreAccount {
    type V = StoreAccountView;

    open spec fn view(&self) -> StoreAccountView {
        StoreAccountView { products: records_of(self.products@), bump: self.bump }
    }
}

impl StoreAccountView {
    /// The account of a slot that was just created with `bump`.
    pub open spec fn empty(bump: u8) -> StoreAccountView {
        StoreAccountView { products: Seq::empty(), bump }
    }

    /// The account with one more record at its end.
    pub open spec fn append(self, record: StoreView) -> StoreAccountView {
        StoreAccountView { products: self.products.push(record), bump: self.bump }
    }

    /// The bytes that the account takes in its slot: the header, the count
    /// of its records, the records, and the bump.
    pub open spec fn serialized_len(self) -> nat {
        (HEADER_LEN + COUNT_WIDTH + records_len(self.products) + BUMP_WIDTH) as nat
    }

    /// Whether the account fits into the fixed size of a slot.
    pub open spec fn fits(self) -> bool {
        self.serialized_len() <= ACCOUNT_SPACE
    }
}

/// A record added at the end adds its own bytes and no others.
pub proof fn lemma_records_len_push(records: Seq<StoreView>, record: StoreView)
    ensures
        records_len(records.push(record)) == records_len(records) + record.encoded_len(),
{
    assert(records.push(record).drop_last() =~= records);
}

/// The first records of a sequence take no more bytes than all of them.
pub proof fn lemma_records_len_prefix(records: Seq<StoreView>, n: int)
    requires
        0 <= n <= records.len(),
    ensures
        records_len(records.take(n)) <= records_len(records),
    decreases records.len() - n,
{
    if n < records.len() {
        lemma_records_len_prefix(records, n + 1);
        assert(records.take(n + 1).drop_last() =~= records.take(n));
    } else {
        assert(records.take(n) =~= records);
    }
}

impl Clone for StoreAccount {
    fn clone(&self) -> (copy: StoreAccount)
        ensures
            copy@ == self@,
    {
        let copy = StoreAccount { products: self.products.clone(), bump: self.bump };
        assert(copy@.products =~= self@.products);
        copy
    }
}

impl StoreAccount {
    /// The account of a slot that was just created with `bump`.
    pub fn new(bump: u8) -> (account: StoreAccount)
        ensures
            account@ == StoreAccountView::empty(bump),
    {
        let account = StoreAccount { products: Vec::new(), bump };
        assert(account@.products =~= Seq::empty());
        account
    }

    /// The bytes that the account takes in its slot, where they fit into
    /// `room` bytes.
    pub fn serialized_len_within(&self, room: usize) -> (len: Option<usize>)
        ensures
            len == (if self@.serialized_len() <= room {
                Some(self@.serialized_len() as usize)
            } else {
                None
            }),
    {
        let fixed: usize = HEADER_LEN + COUNT_WIDTH + BUMP_WIDTH;
        if room < fixed {
            return None;
        }
        let ghost records = self@.products;
        let mut used: usize = fixed;
        let mut i: usize = 0;
        assert(records.take(0) =~= Seq::empty());
        while i < self.products.len()
            invariant
                records == self@.products,
                records.len() == self.products.len(),
                i <= self.products.len(),
                fixed == HEADER_LEN + COUNT_WIDTH + BUMP_WIDTH,
                used == fixed + records_len(records.take(i as int)),
                used <= room,
            decreases self.products.len() - i,
        {
            proof {
                assert(records.take(i + 1).drop_last() =~= records.take(i as int));
                assert(records.take(i + 1).last() == self.products@[i as int]@);
                lemma_records_len_prefix(records, i + 1);
            }
            match self.products[i].encoded_len_within(room - used) {
                Some(len) => {
                    used = used + len;
                },
                None => {
                    return None;
                },
            }
            i += 1;
        }
        assert(records.take(i as int) =~= records);
        Some(used)
    }

    /// Tells whether the account fits into the fixed size of a slot.
    pub fn fits(&self) -> (fits: bool)
        ensures
            fits == self@.fits(),
    {
        self.serialized_len_within(ACCOUNT_SPACE).is_some()
    }

    /// Tells whether the account would still fit into the fixed size of a
    /// slot with `record` added at its end.
    pub fn has_room_for(&self, record: &Store) -> (room: bool)
        ensures
            room == self@.append(record@).fits(),
    {
        proof {
            lemma_records_len_push(self@.products, record@);
        }
        match self.serialized_len_within(ACCOUNT_SPACE) {
            Some(used) => record.fits_in(ACCOUNT_SPACE - used),
            None => false,
        }
    }
}

} // verus!
