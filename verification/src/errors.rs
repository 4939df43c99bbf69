//! Failures that the store reports to its callers.

use vstd::prelude::*;

verus! {

/// Why an operation on the store was aborted. An aborted operation leaves
/// the store exactly as it found it.
#[derive(Clone, Copy, Debug, PartialEq, Eq, Structural)]
pub enum ErrorCode {
    /// The slot was listed while it held no record.
    NoProducts,
    /// A slot is already allocated at the address derived for the owner.
    SlotAlreadyExists,
    /// No slot is allocated at the address derived for the owner.
    SlotNotFound,
    /// The bump does not reproduce the slot's address from the namespace tag
    /// and the owner's key, or no address can be derived at all.
    AddressMismatch,
    /// The record does not fit into what is left of the slot's fixed space.
    StorageExhausted,
}

impl ErrorCode {
    /// The text shown to a caller for this failure.
    pub open spec fn message_text(self) -> Seq<char> {
        match self {
            ErrorCode::NoProducts => "No Products in Store."@,
            ErrorCode::SlotAlreadyExists => "A store already exists for this owner."@,
            ErrorCode::SlotNotFound => "No store exists for this owner."@,
            ErrorCode::AddressMismatch => "The store address does not match its seeds."@,
            ErrorCode::StorageExhausted => "The store has no space left."@,
        }
    }

    /// Returns the text shown to a caller for this failure.
    pub fn message(self) -> (text: &'static str)
        ensures
            text@ == self.message_text(),
    {
        match self {
            ErrorCode::NoProducts => "No Products in Store.",
            ErrorCode::SlotAlreadyExists => "A store already exists for this owner.",
            ErrorCode::SlotNotFound => "No store exists for this owner.",
            ErrorCode::AddressMismatch => "The store address does not match its seeds.",
            ErrorCode::StorageExhausted => "The store has no space left.",
        }
    }
}

} // verus!
