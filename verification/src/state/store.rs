//! One product record.

use vstd::prelude::*;
use vstd::string::StringSliceAdditionalSpecFns;
use vstd::utf8::encode_utf8;

verus! {

/// The bytes that precede a text and give its length.
pub const LENGTH_PREFIX: usize = 4;

/// The bytes of a stored 64-bit integer.
pub const INTEGER_WIDTH: usize = 8;

/// A product record. Once appended to a slot it is never changed; records
/// are told apart by their position alone.
#[derive(Debug)]
pub struct Store {
    /// The product's name.
    pub item: String,
    /// The price, kept as the text the caller wrote.
    pub price: String,
    /// How many units came in.
    pub quantity: i64,
    /// When they came in, usually in Unix seconds.
    pub entrydate: i64,
}

/// A record as a mathematical value.
pub struct StoreView {
    pub item: Seq<char>,
    pub price: Seq<char>,
    pub quantity: i64,
    pub entrydate: i64,
}

impl View for Store {
    type V = StoreView;

    open spec fn view(&self) -> StoreView {
        StoreView {
            item: self.item@,
            price: self.price@,
            quantity: self.quantity,
            entrydate: self.entrydate,
        }
    }
}

impl StoreView {
    /// The bytes that the record takes in a slot: each text as a length
    /// prefix and its UTF-8 bytes, then the two integers.
    pub open spec fn encoded_len(self) -> nat {
        (LENGTH_PREFIX + encode_utf8(self.item).len() + LENGTH_PREFIX + encode_utf8(
            self.price,
        ).len() + INTEGER_WIDTH + INTEGER_WIDTH) as nat
    }
}

impl Clone for Store {
    fn clone(&self) -> (copy: Store)
        ensures
            copy@ == self@,
    {
        Store {
            item: self.item.clone(),
            price: self.price.clone(),
            quantity: self.quantity,
            entrydate: self.entrydate,
        }
    }
}

/// Counts the UTF-8 bytes of a text.
pub fn byte_len(text: &String) -> (len: usize)
    ensures
        len == encode_utf8(text@).len(),
{
    text.as_str().as_bytes().len()
}

impl Store {
    /// Builds a record from its four fields, each kept exactly as given.
    pub fn new(item: String, price: String, quantity: i64, entrydate: i64) -> (record: Store)
        ensures
            record@ == (StoreView { item: item@, price: price@, quantity, entrydate }),
    {
        Store { item, price, quantity, entrydate }
    }

    /// Tells whether the record's bytes fit into `room` bytes.
    pub fn fits_in(&self, room: usize) -> (fits: bool)
        ensures
            fits == (self@.encoded_len() <= room),
    {
        let fixed: usize = LENGTH_PREFIX + LENGTH_PREFIX + INTEGER_WIDTH + INTEGER_WIDTH;
        if room < fixed {
            return false;
        }
        let left: usize = room - fixed;
        let item_len: usize = byte_len(&self.item);
        if item_len > left {
            return false;
        }
        let price_len: usize = byte_len(&self.price);
        price_len <= left - item_len
    }

    /// The record's bytes, counted, where they fit into `room` bytes.
    pub fn encoded_len_within(&self, room: usize) -> (len: Option<usize>)
        ensures
            len == (if self@.encoded_len() <= room {
                Some(self@.encoded_len() as usize)
            } else {
                None
            }),
    {
        if self.fits_in(room) {
            let fixed: usize = LENGTH_PREFIX + LENGTH_PREFIX + INTEGER_WIDTH + INTEGER_WIDTH;
            Some(fixed + byte_len(&self.item) + byte_len(&self.price))
        } else {
            None
        }
    }
}

} // verus!
