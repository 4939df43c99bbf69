//! Where a slot lives: the address derived from the namespace tag, the
//! owner's key and a bump byte, and the guard that holds a claimed bump
//! against an address.

use anchor_lang::prelude::Pubkey;
use vstd::prelude::*;
use vstd::std_specs::cmp::PartialEqSpecImpl;
use vstd::string::StringSliceAdditionalSpecFns;

use crate::errors::ErrorCode;

verus! {

/// The tag that sets the slots of this store apart from every other address
/// derived for the same program.
pub const NAMESPACE_TAG: &'static str = "store_account";

/// A 32-byte key: an owner's identity, a program's identifier or the address
/// of a slot.
#[derive(Clone, Copy, Debug)]
pub struct Key {
    pub bytes: [u8; 32],
}

impl View for Key {
    type V = Seq<u8>;

    open spec fn view(&self) -> Seq<u8> {
        self.bytes@
    }
}

impl Key {
    /// Wraps 32 bytes as a key.
    pub fn new(bytes: [u8; 32]) -> (key: Key)
        ensures
            key@ == bytes@,
            key.bytes == bytes,
    {
        Key { bytes }
    }

    /// Compares two keys byte by byte.
    pub fn same(&self, other: &Key) -> (equal: bool)
        ensures
            equal == (self@ == other@),
    {
        let mut i: usize = 0;
        while i < 32
            invariant
                i <= 32,
                forall|j: int| 0 <= j < i ==> self.bytes@[j] == other.bytes@[j],
            decreases 32 - i,
        {
            if self.bytes[i] != other.bytes[i] {
                return false;
            }
            i += 1;
        }
        assert(self.bytes@ =~= other.bytes@);
        true
    }
}

impl PartialEqSpecImpl for Key {
    open spec fn obeys_eq_spec() -> bool {
        true
    }

    open spec fn eq_spec(&self, other: &Key) -> bool {
        self@ == other@
    }
}

impl PartialEq for Key {
    fn eq(&self, other: &Key) -> (equal: bool) {
        self.same(other)
    }
}

impl Eq for Key {

}

/// An address together with the bump byte that derives it.
#[derive(Clone, Copy, Debug, PartialEq, Eq)]
pub struct Locator {
    pub address: Key,
    pub bump: u8,
}

/// What `Pubkey::create_program_address` returns for these seeds under this
/// program: the derived address, or nothing where the seeds are rejected.
pub uninterp spec fn program_address(seeds: Seq<Seq<u8>>, program_id: Seq<u8>) -> Option<Seq<u8>>;

/// What `Pubkey::try_find_program_address` returns for these seeds under this
/// program: the derived address with its canonical bump, or nothing where no
/// bump gives a valid address.
pub uninterp spec fn canonical_program_address(seeds: Seq<Seq<u8>>, program_id: Seq<u8>) -> Option<
    (Seq<u8>, u8),
>;

/// The bytes of the namespace tag.
pub open spec fn namespace_tag() -> Seq<u8> {
    NAMESPACE_TAG.spec_bytes()
}

/// The canonical address and bump of an owner's slot, if there is one.
pub open spec fn derived(program_id: Seq<u8>, owner: Seq<u8>) -> Option<(Seq<u8>, u8)> {
    canonical_program_address(seq![namespace_tag(), owner], program_id)
}

/// The address that the owner's seeds give with one particular bump, if any.
pub open spec fn rederived(program_id: Seq<u8>, owner: Seq<u8>, bump: u8) -> Option<Seq<u8>> {
    program_address(seq![namespace_tag(), owner, seq![bump]], program_id)
}

/// The bytes of an optional key.
pub open spec fn key_view(key: Option<Key>) -> Option<Seq<u8>> {
    match key {
        Some(k) => Some(k@),
        None => None,
    }
}

/// An optional locator as address bytes and bump.
pub open spec fn locator_view(locator: Option<Locator>) -> Option<(Seq<u8>, u8)> {
    match locator {
        Some(l) => Some((l.address@, l.bump)),
        None => None,
    }
}

/// The verdict of the address guard: a claimed derivation is accepted only
/// where it yields exactly the address in question.
pub open spec fn guard(claimed: Option<Seq<u8>>, address: Seq<u8>) -> Result<(), ErrorCode> {
    if claimed == Some(address) {
        Ok(())
    } else {
        Err(ErrorCode::AddressMismatch)
    }
}

/// The key that a guard let through, as bytes.
pub open spec fn admitted_view(admitted: Result<Key, ErrorCode>) -> Result<Seq<u8>, ErrorCode> {
    match admitted {
        Ok(address) => Ok(address@),
        Err(error) => Err(error),
    }
}

/// What the guard decides for a call that creates a slot, given the owner's
/// derived address, whether a slot is allocated there, and the address that
/// the claimed bump gives. A slot that is already there is reported whatever
/// the bump is.
pub open spec fn admission_to_create(
    located: Option<(Seq<u8>, u8)>,
    occupied: bool,
    claimed: Option<Seq<u8>>,
) -> Result<Seq<u8>, ErrorCode> {
    match located {
        None => Err(ErrorCode::AddressMismatch),
        Some((address, _)) => if occupied {
            Err(ErrorCode::SlotAlreadyExists)
        } else {
            match guard(claimed, address) {
                Ok(()) => Ok(address),
                Err(error) => Err(error),
            }
        },
    }
}

/// What the guard decides for a call on an existing slot, given the owner's
/// derived address, whether a slot is allocated there, and the address that
/// the stored bump gives.
pub open spec fn admission_to_slot(
    located: Option<(Seq<u8>, u8)>,
    occupied: bool,
    claimed: Option<Seq<u8>>,
) -> Result<Seq<u8>, ErrorCode> {
    match located {
        None => Err(ErrorCode::AddressMismatch),
        Some((address, _)) => if !occupied {
            Err(ErrorCode::SlotNotFound)
        } else {
            match guard(claimed, address) {
                Ok(()) => Ok(address),
                Err(error) => Err(error),
            }
        },
    }
}

/// Calls `Pubkey::try_find_program_address` on the seeds `[tag, owner]`.
///
/// Trusted: the result is the one that function gives for these seeds and
/// this program, and an address it returns is the one that
/// `Pubkey::create_program_address` gives for the same seeds followed by the
/// returned bump. The search tries bumps from 255 downwards and returns the
/// first for which `create_program_address` succeeds.
#[verifier::external_body]
fn try_find_program_address(tag: &[u8], owner: &Key, program_id: &Key) -> (found: Option<Locator>)
    ensures
        locator_view(found) == canonical_program_address(seq![tag@, owner@], program_id@),
        found matches Some(l) ==> program_address(seq![tag@, owner@, seq![l.bump]], program_id@)
            == Some(l.address@),
{
    let program = Pubkey::new_from_array(program_id.bytes);
    match Pubkey::try_find_program_address(&[tag, &owner.bytes], &program) {
        Some((address, bump)) => Some(Locator { address: Key { bytes: address.to_bytes() }, bump }),
        None => None,
    }
}

/// Calls `Pubkey::create_program_address` on the seeds `[tag, owner, [bump]]`.
///
/// Trusted: the result is the address that function gives for these seeds
/// and this program, and nothing where it returns an error (a seed that is
/// too long, or a hash that lies on the curve).
#[verifier::external_body]
fn create_program_address(tag: &[u8], owner: &Key, bump: u8, program_id: &Key) -> (address: Option<
    Key,
>)
    ensures
        key_view(address) == program_address(seq![tag@, owner@, seq![bump]], program_id@),
{
    let program = Pubkey::new_from_array(program_id.bytes);
    match Pubkey::create_program_address(&[tag, &owner.bytes, &[bump]], &program) {
        Ok(address) => Some(Key { bytes: address.to_bytes() }),
        Err(_) => None,
    }
}

/// Derives the canonical address and bump of an owner's slot.
///
/// The result depends on the program and the owner alone, and the bump it
/// returns reproduces the address when the address is derived again with it.
pub fn derive(program_id: &Key, owner: &Key) -> (found: Option<Locator>)
    ensures
        locator_view(found) == derived(program_id@, owner@),
        found matches Some(l) ==> rederived(program_id@, owner@, l.bump) == Some(l.address@),
{
    try_find_program_address(NAMESPACE_TAG.as_bytes(), owner, program_id)
}

/// Derives the address that an owner's seeds give with a claimed bump.
pub fn derive_with_bump(program_id: &Key, owner: &Key, bump: u8) -> (address: Option<Key>)
    ensures
        key_view(address) == rederived(program_id@, owner@, bump),
{
    create_program_address(NAMESPACE_TAG.as_bytes(), owner, bump, program_id)
}

/// Holds a derivation that was made with a claimed bump against the address
/// of a slot.
pub fn check_address(claimed: &Option<Key>, address: &Key) -> (verdict: Result<(), ErrorCode>)
    ensures
        verdict == guard(key_view(*claimed), address@),
{
    match claimed {
        Some(key) => {
            if key.same(address) {
                Ok(())
            } else {
                Err(ErrorCode::AddressMismatch)
            }
        },
        None => Err(ErrorCode::AddressMismatch),
    }
}

/// The address guard: accepts a bump only if it derives `address` from the
/// namespace tag and the owner's key.
pub fn validate(program_id: &Key, owner: &Key, bump: u8, address: &Key) -> (verdict: Result<
    (),
    ErrorCode,
>)
    ensures
        verdict == guard(rederived(program_id@, owner@, bump), address@),
{
    let claimed = derive_with_bump(program_id, owner, bump);
    check_address(&claimed, address)
}

/// The guard before a slot is created: lets the call through to the
/// owner's derived address only if no slot is there yet and the claimed
/// bump derives that address.
pub fn admit_create(located: &Option<Locator>, occupied: bool, claimed: &Option<Key>) -> (admitted:
    Result<Key, ErrorCode>)
    ensures
        admitted_view(admitted) == admission_to_create(
            locator_view(*located),
            occupied,
            key_view(*claimed),
        ),
{
    match located {
        Some(locator) => {
            if occupied {
                return Err(ErrorCode::SlotAlreadyExists);
            }
            match check_address(claimed, &locator.address) {
                Ok(()) => Ok(locator.address),
                Err(error) => Err(error),
            }
        },
        None => Err(ErrorCode::AddressMismatch),
    }
}

/// The guard before a slot is read or appended to: lets the call through
/// to the owner's derived address only if a slot is there and its stored
/// bump derives that address.
pub fn admit_access(located: &Option<Locator>, occupied: bool, claimed: &Option<Key>) -> (admitted:
    Result<Key, ErrorCode>)
    ensures
        admitted_view(admitted) == admission_to_slot(
            locator_view(*located),
            occupied,
            key_view(*claimed),
        ),
{
    match located {
        Some(locator) => {
            if !occupied {
                return Err(ErrorCode::SlotNotFound);
            }
            match check_address(claimed, &locator.address) {
                Ok(()) => Ok(locator.address),
                Err(error) => Err(error),
            }
        },
        None => Err(ErrorCode::AddressMismatch),
    }
}

} // verus!
