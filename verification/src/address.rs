//! Where a note lives: an address derived from its owner's key and its number.

use vstd::prelude::*;
use anchor_lang::prelude::Pubkey;

verus! {

/// What `Pubkey::try_find_program_address` returns for the given seeds and
/// program: the derived address with its bump seed, or nothing where no bump
/// seed yields an address.
pub uninterp spec fn program_address(seeds: Seq<Seq<u8>>, program_id: Seq<u8>) -> Option<
    (Seq<u8>, u8),
>;

/// Calls `Pubkey::try_find_program_address` on three seeds. Believed, not
/// proved: the outcome is the one that `program_address` names for these seeds
/// and this program, the address given by its 32 bytes.
#[verifier::external_body]
pub(crate) fn find_program_address(
    first: &[u8],
    second: &[u8],
    third: &[u8],
    program_id: &[u8; 32],
) -> (found: Option<([u8; 32], u8)>)
    ensures
        program_address(seq![first@, second@, third@], program_id@) == match found {
            Some((address, bump)) => Some((address@, bump)),
            None => None::<(Seq<u8>, u8)>,
        },
{
    let program = Pubkey::new_from_array(*program_id);
    match Pubkey::try_find_program_address(&[first, second, third], &program) {
        Some((address, bump)) => Some((address.to_bytes(), bump)),
        None => None,
    }
}

/// The seed that every note's address starts from: the word "note".
pub open spec fn note_prefix() -> Seq<u8> {
    seq![110u8, 111u8, 116u8, 101u8]
}

/// The seeds of a note's address: the prefix, the owner's key, and the note's
/// number as eight bytes, lowest first.
pub open spec fn note_seeds(owner: Seq<u8>, note_id: u64) -> Seq<Seq<u8>> {
    seq![note_prefix(), owner, vstd::bytes::spec_u64_to_le_bytes(note_id)]
}

/// The address of the note that `owner` numbered `note_id`, under the program
/// `program_id`, if one can be derived.
pub open spec fn note_address(owner: Seq<u8>, note_id: u64, program_id: Seq<u8>) -> Option<
    Seq<u8>,
> {
    match program_address(note_seeds(owner, note_id), program_id) {
        Some((address, _)) => Some(address),
        None => None,
    }
}

/// The address as a mathematical value.
pub open spec fn address_view(found: Option<[u8; 32]>) -> Option<Seq<u8>> {
    match found {
        Some(bytes) => Some(bytes@),
        None => None,
    }
}

/// Derives the address of the note that `owner` numbered `note_id`.
pub fn derive_note_address(owner: &[u8; 32], note_id: u64, program_id: &[u8; 32]) -> (found:
    Option<[u8; 32]>)
    ensures
        address_view(found) == note_address(owner@, note_id, program_id@),
{
    let prefix: [u8; 4] = [110, 111, 116, 101];
    let number = vstd::bytes::u64_to_le_bytes(note_id);
    assert(prefix@ =~= note_prefix());
    match find_program_address(prefix.as_slice(), owner.as_slice(), number.as_slice(), program_id) {
        Some((address, _)) => Some(address),
        None => None,
    }
}

} // verus!
